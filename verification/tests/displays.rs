//! Display profiles: storing them, reading them back, and applying them to outputs.

use lunaris_compositor::config::output::comp::{
    AdaptiveSync, CompOutputConfig, CompTransformDef, OutputConfig, OutputInfo, OutputMode,
    OutputPosition, OutputState, OutputsConfig, Transform, TransformDef,
};
use lunaris_compositor::config::output::displays_toml::{
    from_displays, migration, output_from_toml, output_to_toml, removes_old_file, repair_mirrors,
    to_displays, DisplaysToml, EnabledToml, Migration, OutputToml, ProfileToml, TransformToml,
    VrrToml,
};
use lunaris_compositor::config::output::heads::{
    after_apply, enabled_heads, known_configs, read_outputs, roll_back, usable_config,
    write_outputs, AfterApply, Head, OutputPlan,
};
use lunaris_compositor::geometry::Size;
use lunaris_compositor::number::Float64;

fn number(v: f64) -> Float64 {
    Float64 { bits: v.to_bits() }
}

fn info(connector: &str, make: &str, model: &str) -> OutputInfo {
    OutputInfo { connector: connector.into(), make: make.into(), model: model.into() }
}

fn output(enabled: OutputState) -> OutputConfig {
    OutputConfig {
        mode: OutputMode { width: 1920, height: 1080, refresh: Some(60_000) },
        vrr: AdaptiveSync::Enabled,
        scale: number(1.0),
        transform: TransformDef::Normal,
        position: OutputPosition { x: 0, y: 0 },
        enabled,
        max_bpc: None,
        xwayland_primary: false,
    }
}

fn sample_config() -> OutputsConfig {
    let infos = vec![info("DP-1", "Dell", "U2719D"), info("eDP-1", "BOE", "Unknown")];
    let outputs = vec![
        OutputConfig {
            mode: OutputMode { width: 2560, height: 1440, refresh: Some(60_000) },
            vrr: AdaptiveSync::Disabled,
            scale: number(1.0),
            transform: TransformDef::Normal,
            position: OutputPosition { x: 0, y: 0 },
            enabled: OutputState::Enabled,
            max_bpc: Some(10),
            xwayland_primary: true,
        },
        OutputConfig {
            mode: OutputMode { width: 2560, height: 1440, refresh: Some(144_000) },
            vrr: AdaptiveSync::Enabled,
            scale: number(1.5),
            transform: TransformDef::_90,
            position: OutputPosition { x: 2560, y: 0 },
            enabled: OutputState::Mirroring("DP-1".into()),
            max_bpc: None,
            xwayland_primary: false,
        },
    ];
    let mut config = OutputsConfig { profiles: vec![] };
    config.insert(infos, outputs);
    config
}

fn text_of(table: &toml::Table, key: &str) -> String {
    table[key].as_str().unwrap().to_string()
}

fn int_of(table: &toml::Table, key: &str) -> i64 {
    table[key].as_integer().unwrap()
}

fn tables<'a>(table: &'a toml::Table, key: &str) -> Vec<&'a toml::Table> {
    match table.get(key) {
        Some(list) => list.as_array().unwrap().iter().map(|t| t.as_table().unwrap()).collect(),
        None => vec![],
    }
}

fn parse_output(t: &toml::Table) -> OutputToml {
    let mode = t["mode"].as_table().unwrap();
    let position = t["position"].as_table().unwrap();
    OutputToml {
        connector: text_of(t, "connector"),
        mode: OutputMode {
            width: int_of(mode, "width") as i32,
            height: int_of(mode, "height") as i32,
            refresh: mode.get("refresh_mhz").map(|r| r.as_integer().unwrap() as u32),
        },
        scale: number(t["scale"].as_float().unwrap()),
        position: OutputPosition {
            x: int_of(position, "x") as u32,
            y: int_of(position, "y") as u32,
        },
        transform: match text_of(t, "transform").as_str() {
            "normal" => TransformToml::Normal,
            other => panic!("{other}"),
        },
        enabled: EnabledToml::from_text(&text_of(t, "enabled")).unwrap(),
        vrr: match text_of(t, "vrr").as_str() {
            "enabled" => VrrToml::Enabled,
            "disabled" => VrrToml::Disabled,
            "force" => VrrToml::Force,
            other => panic!("{other}"),
        },
        max_bpc: t.get("max_bpc").map(|b| b.as_integer().unwrap() as u32),
        xwayland_primary: t["xwayland_primary"].as_bool().unwrap(),
    }
}

fn parse_displays(text: &str) -> DisplaysToml {
    let doc = toml::from_str::<toml::Table>(text).unwrap();
    DisplaysToml {
        profiles: tables(&doc, "profile")
            .into_iter()
            .map(|p| ProfileToml {
                name: text_of(p, "name"),
                output_set: tables(p, "output_set")
                    .into_iter()
                    .map(|o| {
                        info(&text_of(o, "connector"), &text_of(o, "make"), &text_of(o, "model"))
                    })
                    .collect(),
                output: tables(p, "output").into_iter().map(parse_output).collect(),
            })
            .collect(),
    }
}

#[test]
fn roundtrip_preserves_struct() {
    let original = sample_config();
    let stored = to_displays(&original);
    let parsed = from_displays(&stored).unwrap();
    assert_eq!(parsed.profiles.len(), original.profiles.len());
    for profile in &original.profiles {
        let other = parsed.get(&profile.infos).expect("key present after roundtrip");
        assert_eq!(other, &profile.outputs, "outputs match for key {:?}", profile.infos);
    }
}

#[test]
fn enabled_string_round_trip_includes_mirror() {
    let stored = to_displays(&sample_config());
    let texts: Vec<String> =
        stored.profiles[0].output.iter().map(|o| o.enabled.to_text()).collect();
    assert!(texts.contains(&"mirror:DP-1".to_string()), "{texts:?}");
}

#[test]
fn empty_config_serialises_to_empty_doc() {
    let cfg = OutputsConfig { profiles: vec![] };
    let stored = to_displays(&cfg);
    assert!(stored.profiles.is_empty());
    let parsed = from_displays(&stored).unwrap();
    assert!(parsed.profiles.is_empty());
}

#[test]
fn parse_rejects_output_set_without_matching_output() {
    let text = r#"
[[profile]]
name = "broken"

[[profile.output_set]]
connector = "eDP-1"
make = "BOE"
model = "Unknown"
"#;
    let error = from_displays(&parse_displays(text)).unwrap_err();
    assert_eq!(error.profile, "broken");
    assert_eq!(error.connector, "eDP-1");
    assert!(error.message().contains("eDP-1"), "{}", error.message());
}

#[test]
fn output_set_order_in_toml_does_not_affect_canonical_key() {
    let a = r#"
[[profile]]
name = "a"

[[profile.output_set]]
connector = "DP-1"
make = "Dell"
model = "U2719D"

[[profile.output_set]]
connector = "eDP-1"
make = "BOE"
model = "Unknown"

[[profile.output]]
connector = "eDP-1"
mode = { width = 2560, height = 1440, refresh_mhz = 144000 }
scale = 1.5
position = { x = 0, y = 0 }
transform = "normal"
enabled = "enabled"
vrr = "enabled"
xwayland_primary = false

[[profile.output]]
connector = "DP-1"
mode = { width = 2560, height = 1440, refresh_mhz = 60000 }
scale = 1.0
position = { x = 2560, y = 0 }
transform = "normal"
enabled = "enabled"
vrr = "disabled"
xwayland_primary = true
"#;
    let b = a
        .replace("eDP-1", "ZZZ-tmp")
        .replace("DP-1", "eDP-1")
        .replace("ZZZ-tmp", "DP-1");
    let pa = from_displays(&parse_displays(a)).unwrap();
    let pb = from_displays(&parse_displays(&b)).unwrap();
    assert_eq!(pa.profiles.len(), 1);
    assert_eq!(pb.profiles.len(), 1);
    assert_eq!(pa.profiles[0].infos[0].connector, "DP-1");
    assert_eq!(pb.profiles[0].infos[0].connector, "DP-1");
}

#[test]
fn mirror_target_missing_from_set_gets_repaired() {
    let text = r#"
[[profile]]
name = "broken-mirror"

[[profile.output_set]]
connector = "eDP-1"
make = "BOE"
model = "Unknown"

[[profile.output]]
connector = "eDP-1"
mode = { width = 2560, height = 1440, refresh_mhz = 60000 }
scale = 1.0
position = { x = 0, y = 0 }
transform = "normal"
enabled = "mirror:HDMI-1"
vrr = "enabled"
xwayland_primary = false
"#;
    let cfg = from_displays(&parse_displays(text)).expect("parse succeeds");
    let outputs = &cfg.profiles[0].outputs;
    assert_eq!(outputs.len(), 1);
    assert!(matches!(outputs[0].enabled, OutputState::Enabled));
}

#[test]
fn mirror_target_disabled_gets_repaired() {
    let text = r#"
[[profile]]
name = "mirror-of-disabled"

[[profile.output_set]]
connector = "eDP-1"
make = "BOE"
model = "Unknown"

[[profile.output_set]]
connector = "DP-1"
make = "Dell"
model = "U2719D"

[[profile.output]]
connector = "eDP-1"
mode = { width = 2560, height = 1440, refresh_mhz = 60000 }
scale = 1.0
position = { x = 0, y = 0 }
transform = "normal"
enabled = "mirror:DP-1"
vrr = "enabled"
xwayland_primary = false

[[profile.output]]
connector = "DP-1"
mode = { width = 1920, height = 1080, refresh_mhz = 60000 }
scale = 1.0
position = { x = 2560, y = 0 }
transform = "normal"
enabled = "disabled"
vrr = "enabled"
xwayland_primary = false
"#;
    let cfg = from_displays(&parse_displays(text)).unwrap();
    let profile = &cfg.profiles[0];
    let edp = profile
        .outputs
        .iter()
        .zip(profile.infos.iter())
        .find(|(_, info)| info.connector == "eDP-1")
        .unwrap()
        .0;
    assert!(matches!(edp.enabled, OutputState::Enabled));
}

#[test]
fn mirror_self_gets_repaired() {
    let text = r#"
[[profile]]
name = "self-mirror"

[[profile.output_set]]
connector = "eDP-1"
make = "BOE"
model = "Unknown"

[[profile.output]]
connector = "eDP-1"
mode = { width = 2560, height = 1440, refresh_mhz = 60000 }
scale = 1.0
position = { x = 0, y = 0 }
transform = "normal"
enabled = "mirror:eDP-1"
vrr = "enabled"
xwayland_primary = false
"#;
    let cfg = from_displays(&parse_displays(text)).unwrap();
    assert!(matches!(cfg.profiles[0].outputs[0].enabled, OutputState::Enabled));
}

#[test]
fn mirror_to_enabled_target_survives() {
    let text = r#"
[[profile]]
name = "valid-mirror"

[[profile.output_set]]
connector = "eDP-1"
make = "BOE"
model = "Unknown"

[[profile.output_set]]
connector = "DP-1"
make = "Dell"
model = "U2719D"

[[profile.output]]
connector = "eDP-1"
mode = { width = 2560, height = 1440, refresh_mhz = 60000 }
scale = 1.0
position = { x = 0, y = 0 }
transform = "normal"
enabled = "mirror:DP-1"
vrr = "enabled"
xwayland_primary = false

[[profile.output]]
connector = "DP-1"
mode = { width = 2560, height = 1440, refresh_mhz = 60000 }
scale = 1.0
position = { x = 0, y = 0 }
transform = "normal"
enabled = "enabled"
vrr = "enabled"
xwayland_primary = false
"#;
    let cfg = from_displays(&parse_displays(text)).unwrap();
    let profile = &cfg.profiles[0];
    let edp = profile.infos.iter().position(|i| i.connector == "eDP-1").expect("eDP-1 in set");
    match &profile.outputs[edp].enabled {
        OutputState::Mirroring(t) => assert_eq!(t, "DP-1"),
        other => panic!("expected mirror:DP-1 to survive, got {other:?}"),
    }
}

#[test]
fn a_missing_old_file_or_a_new_one_stops_the_migration() {
    assert_eq!(migration(false, false), migration(false, true));
    assert_ne!(migration(true, false), migration(false, false));
    assert_eq!(migration(true, true), migration(false, true));
    assert!(removes_old_file(migration(true, false), true));
    assert!(!removes_old_file(migration(true, false), false));
    assert!(!removes_old_file(migration(true, true), true));
    assert!(matches!(migration(true, false), Migration::Convert));
}

#[test]
fn a_migration_is_tried_again_until_it_has_written() {
    let run = |old: bool, new: bool, written: bool| {
        let step = migration(old, new);
        let gone = removes_old_file(step, written);
        (old && !gone, new || (step == Migration::Convert && written))
    };
    let failed = run(true, false, false);
    assert_eq!(failed, (true, false), "a failed write changes nothing");
    let done = run(failed.0, failed.1, true);
    assert_eq!(done, (false, true));
    assert_eq!(run(done.0, done.1, true), done);
    assert_eq!(run(true, true, true), (true, true), "an old file beside a new one stays");
}

#[test]
fn enabled_texts_are_read_and_others_refused() {
    assert_eq!(EnabledToml::from_text("enabled").unwrap(), EnabledToml::Enabled);
    assert_eq!(EnabledToml::from_text("disabled").unwrap(), EnabledToml::Disabled);
    assert_eq!(
        EnabledToml::from_text("mirror:HDMI-A-1").unwrap(),
        EnabledToml::Mirror("HDMI-A-1".into())
    );
    assert_eq!(
        EnabledToml::from_text("on\n").unwrap_err(),
        "invalid `enabled` value: \"on\\n\" (want \"enabled\", \"disabled\", or \"mirror:<connector>\")"
    );
}

#[test]
fn stored_outputs_are_read_back() {
    for profile in &sample_config().profiles {
        for (i, o) in profile.outputs.iter().enumerate() {
            let stored = output_to_toml(&profile.infos[i].connector, o);
            assert_eq!(stored.connector, profile.infos[i].connector);
            assert_eq!(&output_from_toml(&stored), o);
        }
    }
}

#[test]
fn mirrors_of_mirrors_are_repaired_once() {
    let set = vec![info("A", "", ""), info("B", "", ""), info("C", "", "")];
    let outputs = vec![
        output(OutputState::Mirroring("B".into())),
        output(OutputState::Mirroring("C".into())),
        output(OutputState::Enabled),
    ];
    let once = repair_mirrors(&set, outputs);
    assert_eq!(once[0].enabled, OutputState::Enabled);
    assert_eq!(once[1].enabled, OutputState::Mirroring("C".into()));
    assert_eq!(once[2].enabled, OutputState::Enabled);
}

#[test]
fn sets_are_found_again() {
    let mut config = sample_config();
    let other = vec![info("HDMI-A-1", "X", "Y")];
    config.insert(other.clone(), vec![output(OutputState::Disabled)]);
    assert_eq!(config.profiles.len(), 2);
    config.insert(other.clone(), vec![output(OutputState::Enabled)]);
    assert_eq!(config.profiles.len(), 2);
    assert_eq!(config.get(&other).unwrap()[0].enabled, OutputState::Enabled);
    assert!(config.get(&vec![info("DP-1", "Dell", "U2719D")]).is_none());
}

#[test]
fn turned_outputs_swap_their_sides() {
    let mut o = output(OutputState::Enabled);
    assert_eq!(CompOutputConfig(&o).transformed_size(), Size { w: 1920, h: 1080 });
    o.transform = TransformDef::Flipped270;
    let comp = CompOutputConfig(&o);
    assert_eq!(comp.mode_size(), Size { w: 1920, h: 1080 });
    assert_eq!(comp.transformed_size(), Size { w: 1080, h: 1920 });
    assert_eq!(comp.output_mode(), (Size { w: 1920, h: 1080 }, 60_000));
    assert_eq!(comp.transform(), Transform::Flipped270);
    assert_eq!(CompTransformDef::from_transform(Transform::_180).0, TransformDef::_180);
    o.mode.refresh = None;
    assert_eq!(CompOutputConfig(&o).mode_refresh(), 60_000);
}

fn head(connector: &str, enabled: OutputState, mirroring: bool, width: i32) -> Head {
    Head { info: info(connector, "", ""), config: output(enabled), mirroring, width }
}

#[test]
fn stored_configurations_reach_their_outputs() {
    let mut stored = OutputsConfig { profiles: vec![] };
    let mut first = output(OutputState::Enabled);
    first.position = OutputPosition { x: 11, y: 0 };
    let mut second = output(OutputState::Disabled);
    second.position = OutputPosition { x: 22, y: 0 };
    stored.insert(vec![info("A", "", ""), info("B", "", "")], vec![first, second]);

    let mut heads = vec![
        head("B", OutputState::Enabled, false, 100),
        head("A", OutputState::Enabled, false, 200),
    ];
    match read_outputs(&mut heads, &stored) {
        OutputPlan::Stored { assigned } => assert_eq!(assigned, vec![1, 0]),
        other => panic!("{other:?}"),
    }
    assert_eq!(heads[0].config.position, OutputPosition { x: 22, y: 0 });
    assert_eq!(heads[1].config.position, OutputPosition { x: 11, y: 0 });
    assert_eq!(enabled_heads(&heads), vec![false, true]);
}

#[test]
fn unknown_outputs_stand_side_by_side() {
    let stored = OutputsConfig { profiles: vec![] };
    let mut heads = vec![
        head("M", OutputState::Disabled, true, 999),
        head("A", OutputState::Disabled, false, 100),
        head("B", OutputState::Disabled, false, 200),
    ];
    assert!(matches!(read_outputs(&mut heads, &stored), OutputPlan::Generated));
    assert!(heads.iter().all(|h| h.config.enabled == OutputState::Enabled));
    assert_eq!(heads[1].config.position, OutputPosition { x: 0, y: 0 });
    assert_eq!(heads[2].config.position, OutputPosition { x: 100, y: 0 });
    let primary: Vec<bool> = heads.iter().map(|h| h.config.xwayland_primary).collect();
    assert_eq!(primary, vec![false, true, false]);
}

#[test]
fn a_profile_that_disables_everything_is_not_used() {
    let mut stored = OutputsConfig { profiles: vec![] };
    let set = vec![info("A", "", "")];
    stored.insert(set.clone(), vec![output(OutputState::Disabled)]);
    assert!(usable_config(&stored, &set).is_none());
    let mut heads = vec![head("A", OutputState::Disabled, false, 100)];
    assert!(matches!(read_outputs(&mut heads, &stored), OutputPlan::Generated));
    assert_eq!(heads[0].config.enabled, OutputState::Enabled);
}

#[test]
fn failed_configurations_are_rolled_back_once() {
    assert_eq!(after_apply(true, false, true), AfterApply::Finish);
    assert_eq!(after_apply(true, false, false), AfterApply::RollBack);
    assert_eq!(after_apply(true, true, false), AfterApply::Fail);
    assert_eq!(after_apply(false, false, false), AfterApply::Fail);

    let mut heads = vec![head("A", OutputState::Enabled, false, 100)];
    let known = known_configs(&heads);
    heads[0].config.enabled = OutputState::Disabled;
    roll_back(&mut heads, &known);
    assert_eq!(heads[0].config.enabled, OutputState::Enabled);
}

#[test]
fn written_outputs_are_sorted_and_found() {
    let mut stored = OutputsConfig { profiles: vec![] };
    let mut heads = vec![
        head("B", OutputState::Enabled, false, 100),
        head("A", OutputState::Disabled, false, 200),
    ];
    heads[1].config.max_bpc = Some(8);
    write_outputs(&mut stored, &heads);
    assert_eq!(stored.profiles.len(), 1);
    assert_eq!(stored.profiles[0].infos[0].connector, "A");
    assert_eq!(stored.profiles[0].outputs[0].max_bpc, Some(8));
    let set = vec![info("A", "", ""), info("B", "", "")];
    assert_eq!(usable_config(&stored, &set).unwrap().len(), 2);
}

#[test]
fn what_is_stored_does_not_depend_on_the_order_of_insertion() {
    let sets = [
        vec![info("DP-1", "Dell", "U2719D")],
        vec![info("DP-1", "Dell", "B"), info("HDMI-A-1", "LG", "C")],
        vec![info("DP-1", "DellB", "")],
        vec![info("A-1", "x", "y")],
    ];
    let store = |order: [usize; 4]| {
        let mut config = OutputsConfig { profiles: vec![] };
        for i in order {
            let outputs = sets[i].iter().map(|_| output(OutputState::Enabled)).collect();
            config.insert(sets[i].clone(), outputs);
        }
        to_displays(&config)
    };
    let stored = store([0, 1, 2, 3]);
    assert_eq!(stored.profiles[0].output_set, sets[3], "connectors come first");
    assert_eq!(stored.profiles[0].name, "profile-1");
    assert_eq!(stored, store([3, 2, 1, 0]));
    assert_eq!(stored, store([2, 0, 3, 1]));
}

#[test]
fn the_order_of_entries_does_not_matter() {
    let entry = |connector: &str, state: OutputState| output_to_toml(connector, &output(state));
    let profile = |output: Vec<OutputToml>| DisplaysToml {
        profiles: vec![ProfileToml {
            name: "desk".into(),
            output_set: vec![info("A", "m", "n"), info("B", "m", "n")],
            output,
        }],
    };
    let one = from_displays(&profile(vec![
        entry("A", OutputState::Enabled),
        entry("B", OutputState::Disabled),
    ]));
    let other = from_displays(&profile(vec![
        entry("B", OutputState::Disabled),
        entry("A", OutputState::Enabled),
    ]));
    assert_eq!(one, other);
    let outputs = &one.unwrap().profiles[0].outputs;
    assert_eq!(outputs[0].enabled, OutputState::Enabled);
    assert_eq!(outputs[1].enabled, OutputState::Disabled);
}

#[test]
fn a_set_that_is_stored_twice_is_read_once() {
    let profile = |state: OutputState| ProfileToml {
        name: "desk".into(),
        output_set: vec![info("A", "m", "n")],
        output: vec![output_to_toml("A", &output(state))],
    };
    let displays = DisplaysToml {
        profiles: vec![profile(OutputState::Disabled), profile(OutputState::Enabled)],
    };
    let config = from_displays(&displays).unwrap();
    assert_eq!(config.profiles.len(), 1);
    assert_eq!(config.profiles[0].outputs[0].enabled, OutputState::Enabled);
}
