//! The main configuration, its key bindings, and the keyboard.

use lunaris_compositor::config::comp::{
    config_changed, config_effects, load_toml_config, locks_to_toggle, repeat_info,
    shortcut_setting_changed, toml_config_changed, window_rule_setting_changed, Config,
    ConfigEffect, CosmicCompConfig, EavesdroppingKeyboardMode, KeyboardConfig, NumlockState,
    SettingsReload, TileBehavior, WorkspaceConfig, WorkspaceLayout, WorkspaceMode,
    XwaylandDescaling, XwaylandEavesdropping, ZoomConfig,
};
use lunaris_compositor::config::dynamic::{
    load_dynamic, load_filter_state, load_numlock, ColorFilter, CompOutputInfo, DynamicConfig,
    NumlockStateConfig, ScreenFilter, StoredState,
};
use lunaris_compositor::config::input::{
    get_device_config, map_to_output, parse_mouse_config, parse_touchpad_config, scroll_factor,
    ClickMethod, InputConfig, InputDeviceState, ScrollConfig, ScrollMethod, TouchpadOverride,
};
use lunaris_compositor::config::key_bindings::{
    action_from_str, change_modifier_state, cosmic_keystate_from_smithay,
    cosmic_keystate_to_smithay, cosmic_modifiers_eq_smithay, cosmic_modifiers_from_smithay,
    keysym_from_str, Action, InputKeyState, KeyState, ModifiersState, PrivateAction,
    ResizeDirection, Shortcut,
};
use lunaris_compositor::config::keybinding::{
    config_path, default_keybindings, keybinding_fragment_dir, load_keybinding_fragments,
    parse_keybinding, FragmentFile,
};
use lunaris_compositor::config::layout::{WindowAction, WindowMatch, WindowRule};
use lunaris_compositor::config::output::comp::{
    AdaptiveSync, OutputConfig, OutputInfo, OutputMode, OutputPosition, OutputState, OutputsConfig,
    TransformDef,
};
use lunaris_compositor::config::output::heads::{Head, OutputPlan};
use lunaris_compositor::config::value::parse_document;
use lunaris_compositor::config::xkb::{
    parse_system_xkb, parse_vconsole_keymap, xkb_config, xkb_config_to_wl, SystemXkb, XkbConfig,
    XkbEnvironment,
};
use lunaris_compositor::dbus::input_manager::DynamicBindings;
use lunaris_compositor::geometry::Size;
use lunaris_compositor::input::binding_resolver::BindingResolver;
use lunaris_compositor::number::Float64;
use lunaris_compositor::pattern::Pattern;
use lunaris_compositor::shell::element::stack::{Direction, FocusDirection};
use lunaris_compositor::shell::element::window::{AppearanceConfig, ResizeEdge};
use lunaris_compositor::shell::layout::{
    check_window_rules, has_floating_exception, is_dialog, ApplicationException, TilingExceptions,
    WindowKind, WmWindowType,
};
use lunaris_compositor::shell::zoom::ZoomMovement;

fn keyboard() -> XkbConfig {
    XkbConfig {
        rules: String::new(),
        model: String::new(),
        layout: String::new(),
        variant: String::new(),
        options: None,
        repeat_delay: 600,
        repeat_rate: 25,
    }
}

fn defaults() -> CosmicCompConfig {
    CosmicCompConfig {
        workspaces: WorkspaceConfig {
            workspace_mode: WorkspaceMode::OutputBound,
            workspace_layout: WorkspaceLayout::Vertical,
        },
        input_default: InputConfig::default(),
        input_touchpad: InputConfig::default(),
        input_touchpad_override: TouchpadOverride::NoOverride,
        input_devices: vec![],
        xkb_config: keyboard(),
        keyboard_config: KeyboardConfig { numlock_state: NumlockState::BootOff },
        autotile: false,
        autotile_behavior: TileBehavior::PerWorkspace,
        active_hint: true,
        descale_xwayland: XwaylandDescaling::Fractional,
        xwayland_eavesdropping: XwaylandEavesdropping {
            keyboard: EavesdroppingKeyboardMode::NoKeys,
            pointer: false,
        },
        accessibility_zoom: ZoomConfig {
            start_on_login: false,
            show_overlay: true,
            increment: 50,
            view_moves: ZoomMovement::Continuously,
            enable_mouse_zoom_shortcuts: false,
        },
        appearance_settings: AppearanceConfig {
            clip_floating_windows: true,
            clip_tiled_windows: true,
            shadow_tiled_windows: true,
        },
    }
}

fn number(v: f64) -> Float64 {
    Float64 { bits: v.to_bits() }
}

#[test]
fn test_action_from_str_known() {
    assert!(matches!(
        action_from_str("toggle_tiling"),
        Some(Action::Shortcut(Shortcut::ToggleTiling))
    ));
    assert!(matches!(
        action_from_str("focus_left"),
        Some(Action::Shortcut(Shortcut::Focus(FocusDirection::Left)))
    ));
    assert!(matches!(
        action_from_str("scratchpad_toggle"),
        Some(Action::Private(PrivateAction::ScratchpadToggle))
    ));
    assert!(matches!(
        action_from_str("toggle_monocle"),
        Some(Action::Private(PrivateAction::ToggleMonocle))
    ));
}

#[test]
fn test_action_from_str_unknown() {
    assert!(action_from_str("nonexistent").is_none());
    assert!(action_from_str("").is_none());
}

#[test]
fn test_keysym_from_str() {
    assert!(keysym_from_str("H").is_some());
    assert!(keysym_from_str("T").is_some());
    assert!(keysym_from_str("1").is_some());
    assert!(keysym_from_str("Minus").is_some());
    assert!(keysym_from_str("Space").is_some());
    assert!(keysym_from_str("F1").is_some());
    assert!(keysym_from_str("NotAKey").is_none());
}

#[test]
fn actions_resize_and_move() {
    assert_eq!(
        action_from_str("resize_grow_width"),
        Some(Action::Private(PrivateAction::Resizing(
            ResizeDirection::Outwards,
            ResizeEdge::Right,
            KeyState::Pressed
        )))
    );
    assert_eq!(
        action_from_str("resize_shrink_height"),
        Some(Action::Private(PrivateAction::Resizing(
            ResizeDirection::Inwards,
            ResizeEdge::Bottom,
            KeyState::Pressed
        )))
    );
    assert_eq!(
        action_from_str("move_down"),
        Some(Action::Shortcut(Shortcut::Move(Direction::Down)))
    );
    assert_eq!(action_from_str("fullscreen"), action_from_str("toggle_fullscreen"));
    assert_eq!(action_from_str("maximize"), action_from_str("toggle_maximize"));
    assert_eq!(action_from_str("Maximize"), None);
}

#[test]
fn keys_have_the_numbers_of_the_keyboard_protocol() {
    let named: Vec<(&str, u32)> = vec![
        ("space", xkeysym::key::space),
        ("Return", xkeysym::key::Return),
        ("enter", xkeysym::key::Return),
        ("tab", xkeysym::key::Tab),
        ("ESCAPE", xkeysym::key::Escape),
        ("esc", xkeysym::key::Escape),
        ("backspace", xkeysym::key::BackSpace),
        ("delete", xkeysym::key::Delete),
        ("del", xkeysym::key::Delete),
        ("minus", xkeysym::key::minus),
        ("plus", xkeysym::key::equal),
        ("equal", xkeysym::key::equal),
        ("bracketleft", xkeysym::key::bracketleft),
        ("bracketright", xkeysym::key::bracketright),
        ("semicolon", xkeysym::key::semicolon),
        ("comma", xkeysym::key::comma),
        ("period", xkeysym::key::period),
        ("slash", xkeysym::key::slash),
        ("backslash", xkeysym::key::backslash),
        ("left", xkeysym::key::Left),
        ("right", xkeysym::key::Right),
        ("up", xkeysym::key::Up),
        ("down", xkeysym::key::Down),
        ("home", xkeysym::key::Home),
        ("end", xkeysym::key::End),
        ("pageup", xkeysym::key::Page_Up),
        ("page_up", xkeysym::key::Page_Up),
        ("pagedown", xkeysym::key::Page_Down),
        ("page_down", xkeysym::key::Page_Down),
        ("f1", xkeysym::key::F1),
        ("f2", xkeysym::key::F2),
        ("f3", xkeysym::key::F3),
        ("f4", xkeysym::key::F4),
        ("f5", xkeysym::key::F5),
        ("f6", xkeysym::key::F6),
        ("f7", xkeysym::key::F7),
        ("f8", xkeysym::key::F8),
        ("f9", xkeysym::key::F9),
        ("f10", xkeysym::key::F10),
        ("f11", xkeysym::key::F11),
        ("F12", xkeysym::key::F12),
        ("A", xkeysym::key::a),
        ("z", xkeysym::key::z),
        ("0", xkeysym::key::_0),
        ("9", xkeysym::key::_9),
    ];
    for (name, raw) in named {
        assert_eq!(keysym_from_str(name).map(|k| k.raw), Some(raw), "{name}");
    }
    assert_eq!(keysym_from_str("bac\u{212a}space").map(|k| k.raw), Some(xkeysym::key::BackSpace));
    assert_eq!(keysym_from_str("-"), None);
}

#[test]
fn key_states_and_modifiers_are_taken_over() {
    for state in [KeyState::Pressed, KeyState::Released] {
        assert_eq!(cosmic_keystate_from_smithay(cosmic_keystate_to_smithay(state)), state);
    }
    assert_eq!(cosmic_keystate_to_smithay(KeyState::Pressed), InputKeyState::Pressed);
    let mut held = ModifiersState {
        ctrl: true,
        alt: false,
        shift: true,
        caps_lock: true,
        logo: false,
        num_lock: true,
        iso_level3_shift: true,
        iso_level5_shift: false,
    };
    let modifiers = cosmic_modifiers_from_smithay(held);
    assert_eq!((modifiers.ctrl, modifiers.alt, modifiers.shift, modifiers.logo), (
        true, false, true, false
    ));
    held.caps_lock = false;
    assert!(cosmic_modifiers_eq_smithay(&modifiers, &held));
    held.logo = true;
    assert!(!cosmic_modifiers_eq_smithay(&modifiers, &held));
}

#[test]
fn locks_are_pressed_and_released() {
    let (down, up) = change_modifier_state(69);
    assert_eq!((down.keycode, down.state), (77, InputKeyState::Pressed));
    assert_eq!((up.keycode, up.state), (77, InputKeyState::Released));
    assert_eq!(locks_to_toggle(true, false, false, true), vec![77, 66]);
    assert_eq!(locks_to_toggle(true, true, false, true), vec![66]);
    assert!(locks_to_toggle(true, true, true, true).is_empty());
}

#[test]
fn test_load_sparse_toml() {
    let tc = load_toml_config(
        Some(
            r#"
[xkb_config]
layout = "de"

[workspaces]
workspace_layout = "Horizontal"
"#,
        ),
        defaults(),
    );
    assert_eq!(tc.cosmic.xkb_config.layout, "de", "layout must be 'de'");
    assert_eq!(tc.cosmic.xkb_config.repeat_rate, 25);
    assert_eq!(tc.cosmic.workspaces.workspace_layout, WorkspaceLayout::Horizontal);
    assert!(
        !tc.keybindings.is_empty(),
        "default keybindings should be loaded when no [keybindings] section"
    );
    assert!(
        tc.keybindings.iter().any(|k| k.action == "focus_left"),
        "default keybindings should include focus_left"
    );
}

#[test]
fn test_load_empty_toml() {
    let tc = load_toml_config(Some(""), defaults());
    assert_eq!(tc.cosmic.xkb_config.layout, "");
}

#[test]
fn test_load_missing_toml() {
    let tc = load_toml_config(None, defaults());
    assert_eq!(tc.cosmic.xkb_config.layout, "");
    assert!(tc.keybindings.is_empty());
}

#[test]
fn test_load_layout_config() {
    let tc = load_toml_config(
        Some(
            r#"
[layout]
inner_gap = 4
outer_gap = 12
smart_gaps = false

[[layout.window_rules]]
match = { app_id = "pavucontrol" }
action = "float"

[[layout.window_rules]]
match = { app_id = "firefox", title = ".*Picture-in-Picture.*" }
action = "float"
"#,
        ),
        defaults(),
    );
    assert_eq!(tc.layout.inner_gap, 4);
    assert_eq!(tc.layout.outer_gap, 12);
    assert!(!tc.layout.smart_gaps);
    assert_eq!(tc.layout.window_rules.len(), 2);
    assert_eq!(tc.layout.window_rules[0].action, WindowAction::Float);
    assert!(tc.layout.window_rules[0].matcher.app_id.as_ref().unwrap().is_match("pavucontrol"));
}

#[test]
fn test_load_keybindings() {
    let tc = load_toml_config(
        Some(
            r#"
[keybindings]
"Super+T" = "toggle_tiling"
"Super+Shift+H" = "move_left"
"Super+Ctrl+L" = "resize_grow_width"
"#,
        ),
        defaults(),
    );
    assert_eq!(tc.keybindings.len(), 3);

    let toggle = tc.keybindings.iter().find(|k| k.action == "toggle_tiling").unwrap();
    assert!(toggle.modifiers.super_key);
    assert!(!toggle.modifiers.shift);
    assert_eq!(toggle.key, "T");

    let move_left = tc.keybindings.iter().find(|k| k.action == "move_left").unwrap();
    assert!(move_left.modifiers.super_key);
    assert!(move_left.modifiers.shift);
    assert_eq!(move_left.key, "H");
}

#[test]
fn test_window_match() {
    let match_all = WindowMatch { app_id: None, title: None, window_type: None };
    assert!(match_all.matches("any", "any", false));

    let match_app = WindowMatch {
        app_id: Some(Pattern::new("pavucontrol").unwrap()),
        title: None,
        window_type: None,
    };
    assert!(match_app.matches("pavucontrol", "Volume Control", false));
    assert!(!match_app.matches("firefox", "Mozilla", false));

    let match_both = WindowMatch {
        app_id: Some(Pattern::new("firefox").unwrap()),
        title: Some(Pattern::new(".*PiP.*").unwrap()),
        window_type: None,
    };
    assert!(match_both.matches("firefox", "PiP Window", false));
    assert!(!match_both.matches("firefox", "Normal Page", false));

    let match_dialog = WindowMatch {
        app_id: None,
        title: None,
        window_type: Some("dialog".into()),
    };
    assert!(match_dialog.matches("any", "any", true));
    assert!(!match_dialog.matches("any", "any", false));
}

#[test]
fn load_keybinding_fragments_empty_dir() {
    let fragments = load_keybinding_fragments(&vec![]);
    assert!(fragments.is_empty());
}

fn file(name: &str, content: Option<&str>) -> FragmentFile {
    FragmentFile { name: name.into(), content: content.map(String::from) }
}

#[test]
fn load_keybinding_fragments_reads_all_tomls() {
    let files = vec![
        file(
            "com.example.a.toml",
            Some("[keybindings]\n\"Super+A\" = \"module:com.example.a:open\"\n"),
        ),
        file(
            "com.example.b.toml",
            Some(
                "[keybindings]\n\"Super+B\" = \"module:com.example.b:activate\"\n\
                 \"Ctrl+B\" = \"module:com.example.b:secondary\"\n",
            ),
        ),
        file("README.md", Some("ignore me")),
    ];
    let mut fragments = load_keybinding_fragments(&files);
    fragments.sort_by(|a, b| a.binding.cmp(&b.binding));
    assert_eq!(fragments.len(), 3);
    assert!(fragments.iter().any(|e| e.binding == "Super+A" && e.module_id == "com.example.a"));
    assert!(fragments.iter().filter(|e| e.module_id == "com.example.b").count() == 2);
}

#[test]
fn load_keybinding_fragments_skips_malformed() {
    let files = vec![
        file("broken.toml", Some("not valid toml = = =")),
        file("ok.toml", Some("[keybindings]\n\"Super+X\" = \"module:ok:x\"\n")),
        file("unreadable.toml", None),
        file(".toml", Some("[keybindings]\n\"Super+Y\" = \"module:hidden:y\"\n")),
    ];
    let fragments = load_keybinding_fragments(&files);
    assert_eq!(fragments.len(), 1);
    assert_eq!(fragments[0].module_id, "ok");
    assert_eq!(fragments[0].action, "module:ok:x");
}

#[test]
fn keybinding_fragment_dir_is_sibling_of_toml() {
    let frag = keybinding_fragment_dir("/etc/lunaris/compositor.toml");
    assert_eq!(frag, "/etc/lunaris/compositor.d/keybindings.d");
}

#[test]
fn fragments_of_a_bare_name_are_below_it() {
    assert_eq!(keybinding_fragment_dir("compositor.toml"), "compositor.d/keybindings.d");
    assert_eq!(keybinding_fragment_dir("/"), "./compositor.d/keybindings.d");
}

#[test]
fn the_configuration_has_its_place() {
    assert_eq!(config_path(Some("/x.toml".into()), Some("/home/u".into())), "/x.toml");
    assert_eq!(
        config_path(None, Some("/home/u".into())),
        "/home/u/.config/lunaris/compositor.toml"
    );
    assert_eq!(config_path(None, None), "/tmp/.config/lunaris/compositor.toml");
}

#[test]
fn accelerators_name_modifiers_and_a_key() {
    let (m, key) = parse_keybinding("ctrl+Alt+LOGO+Delete").unwrap();
    assert!(m.ctrl && m.alt && m.super_key && !m.shift);
    assert_eq!(key, "Delete");
    assert_eq!(default_keybindings().len(), 35);
    assert!(default_keybindings()
        .iter()
        .any(|b| b.action == "spawn:foot" && b.key == "Return" && b.modifiers.super_key));
}

#[test]
fn an_empty_table_of_key_bindings_means_none() {
    let tc = load_toml_config(Some("[keybindings]\n"), defaults());
    assert!(tc.keybindings.is_empty());
    let tc = load_toml_config(Some("not toml = = ="), defaults());
    assert!(tc.keybindings.is_empty());
}

#[test]
fn broken_patterns_match_everything() {
    let tc = load_toml_config(
        Some(
            "[[layout.window_rules]]\nmatch = { app_id = \"(\" }\naction = \"tile\"\n\
             [[layout.window_rules]]\nmatch = { app_id = \"x\" }\naction = \"float\"\n",
        ),
        defaults(),
    );
    assert_eq!(tc.layout.window_rules.len(), 2);
    assert_eq!(check_window_rules(&tc.layout.window_rules, "x", "t", false), Some(false));
}

#[test]
fn the_first_rule_that_matches_decides() {
    let rule = |app: &str, action: WindowAction| WindowRule {
        matcher: WindowMatch {
            app_id: Some(Pattern::new(app).unwrap()),
            title: None,
            window_type: None,
        },
        action,
    };
    let rules = vec![rule("^a$", WindowAction::Float), rule("a|b", WindowAction::Tile)];
    assert_eq!(check_window_rules(&rules, "a", "", false), Some(true));
    assert_eq!(check_window_rules(&rules, "b", "", false), Some(false));
    assert_eq!(check_window_rules(&rules, "c", "", false), None);
}

#[test]
fn exceptions_need_both_patterns() {
    let exception = |appid: &str, title: &str| ApplicationException {
        appid: appid.into(),
        title: title.into(),
    };
    let exceptions = TilingExceptions::new(&vec![
        exception("steam", "^Friends$"),
        exception("(", ".*"),
        exception("zoom", ".*"),
    ])
    .unwrap();
    assert!(has_floating_exception(&exceptions, "steam", "Friends"));
    assert!(!has_floating_exception(&exceptions, "steam", "Library"));
    assert!(has_floating_exception(&exceptions, "zoom", "Library"));
    assert!(!has_floating_exception(&exceptions, "(", "Friends"));
}

#[test]
fn dialogs_have_a_parent_a_type_or_a_fixed_size() {
    let plain = WindowKind::Wayland { has_parent: false };
    let size = |w, h| Some(Size { w, h });
    assert!(is_dialog(WindowKind::Wayland { has_parent: true }, None, None));
    assert!(!is_dialog(plain, None, None));
    assert!(is_dialog(plain, size(5, 5), size(5, 5)));
    assert!(!is_dialog(plain, size(5, 5), size(5, 6)));
    let x11 = |window_type| WindowKind::X11 {
        override_redirect: false,
        popup: false,
        window_type,
    };
    assert!(is_dialog(x11(Some(WmWindowType::Dialog)), None, None));
    assert!(!is_dialog(x11(Some(WmWindowType::Utility)), None, None));
    assert!(!is_dialog(x11(None), None, None));
}

#[test]
fn an_unchanged_configuration_asks_for_nothing() {
    assert!(config_effects(&defaults(), &defaults()).is_empty());
}

#[test]
fn changes_ask_for_their_effects() {
    let mut new = defaults();
    new.xkb_config.layout = "de".into();
    new.autotile = true;
    new.appearance_settings.shadow_tiled_windows = false;
    assert_eq!(
        config_effects(&defaults(), &new),
        vec![
            ConfigEffect::UpdateKeyboard,
            ConfigEffect::UpdateAutotile(true),
            ConfigEffect::UpdateConfig,
            ConfigEffect::ScheduleRender,
        ]
    );
    let mut new = defaults();
    new.input_devices.push(("pad".into(), InputConfig::default()));
    new.xwayland_eavesdropping.pointer = true;
    assert_eq!(
        config_effects(&defaults(), &new),
        vec![ConfigEffect::UpdateInput, ConfigEffect::ResetEavesdropping]
    );
}

fn config(cosmic_conf: CosmicCompConfig) -> Config {
    let dynamic = load_dynamic(
        (None, OutputsConfig { profiles: vec![] }),
        (None, StoredState::Missing),
        (None, StoredState::Missing),
    );
    Config::load("/c.toml".into(), None, dynamic, vec![], cosmic_conf)
}

#[test]
fn the_configuration_is_assembled_at_the_start() {
    let dynamic = load_dynamic(
        (Some("/o.ron".into()), OutputsConfig { profiles: vec![] }),
        (Some("/n.ron".into()), StoredState::Read(NumlockStateConfig { last_state: true })),
        (None, StoredState::Broken),
    );
    assert!(dynamic.numlock().last_state && !dynamic.screen_filter().inverted);
    let excepted = vec![ApplicationException { appid: "a".into(), title: ".*".into() }];
    let content = "[keybindings]\n\"Super+A\" = \"own\"\n";
    let config = Config::load("/c.toml".into(), Some(content), dynamic, excepted, defaults());
    assert_eq!(config.toml_path, "/c.toml");
    assert_eq!(config.toml_keybindings.len(), 1);
    assert_eq!(config.tiling_exceptions.len(), 1);
    assert_eq!(config.dynamic_conf.outputs.0.as_deref(), Some("/o.ron"));
    assert!(!config.nested);
}

#[test]
fn touchpads_and_other_devices_have_their_own_defaults() {
    let mut cosmic = defaults();
    cosmic.input_default.map_to_output = Some("DP-1".into());
    cosmic.input_touchpad.map_to_output = Some("eDP-1".into());
    cosmic.input_touchpad.scroll_config = Some(ScrollConfig {
        method: None,
        natural_scroll: None,
        scroll_button: None,
        scroll_factor: Some(number(2.0)),
    });
    let mut own = InputConfig::default();
    own.map_to_output = Some("HDMI-A-1".into());
    cosmic.input_devices = vec![("tablet".into(), own)];
    let config = config(cosmic);
    assert_eq!(config.map_to_output("mouse", 0), Some("DP-1".into()));
    assert_eq!(config.map_to_output("pad", 3), Some("eDP-1".into()));
    assert_eq!(config.map_to_output("tablet", 0), Some("HDMI-A-1".into()));
    assert_eq!(config.scroll_factor("mouse", 0), number(1.0));
    assert_eq!(config.scroll_factor("pad", 3), number(2.0));
    let (own, default) = config.get_device_config("pad", 3);
    assert!(own.is_none());
    assert_eq!(default, &config.cosmic_conf.input_touchpad);
}

#[test]
fn outputs_are_stored_and_found_again() {
    let mut config = config(defaults());
    let mut heads = vec![
        head("B", OutputPosition { x: 5, y: 6 }),
        head("A", OutputPosition { x: 7, y: 8 }),
    ];
    config.write_outputs(&heads);
    heads[0].config.position = OutputPosition { x: 0, y: 0 };
    assert!(matches!(config.read_outputs(&mut heads), OutputPlan::Stored { .. }));
    assert_eq!(heads[0].config.position, OutputPosition { x: 5, y: 6 });
    let mut others = vec![head("C", OutputPosition { x: 9, y: 9 })];
    assert!(matches!(config.read_outputs(&mut others), OutputPlan::Generated));
    assert_eq!(others[0].config.position, OutputPosition { x: 0, y: 0 });
}

#[test]
fn the_keyboard_of_the_configuration_is_completed() {
    let mut cosmic = defaults();
    cosmic.xkb_config.layout = "de".into();
    let nothing = || SystemXkb {
        layout: String::new(),
        variant: String::new(),
        model: String::new(),
        options: String::new(),
    };
    let env = |layout: Option<&str>| XkbEnvironment {
        layout: layout.map(String::from),
        variant: None,
        model: None,
        rules: None,
        options: None,
    };
    assert_eq!(config(cosmic).xkb_config(env(Some("us")), nothing(), None).layout, "de");
    assert_eq!(config(defaults()).xkb_config(env(Some("us")), nothing(), None).layout, "us");
    let console = config(defaults()).xkb_config(env(None), nothing(), Some("fr".into()));
    assert_eq!(console.layout, "fr");
}

fn head(connector: &str, position: OutputPosition) -> Head {
    Head {
        info: OutputInfo {
            connector: connector.into(),
            make: String::new(),
            model: String::new(),
        },
        config: OutputConfig {
            mode: OutputMode { width: 1920, height: 1080, refresh: None },
            vrr: AdaptiveSync::Disabled,
            scale: number(1.0),
            transform: TransformDef::Normal,
            position,
            enabled: OutputState::Enabled,
            max_bpc: None,
            xwayland_primary: false,
        },
        mirroring: false,
        width: 100,
    }
}

#[test]
fn a_changed_file_is_taken_over() {
    let mut config = config(defaults());
    let mut resolver = BindingResolver::new(DynamicBindings::default());
    let content = "[keybindings]\n\"Super+A\" = \"own\"\n[workspaces]\nworkspace_layout = \"x\"\n";
    let files = vec![file("m.toml", Some("[keybindings]\n\"Super+B\" = \"module:m:b\"\n"))];
    let effects =
        toml_config_changed(&mut config, &mut resolver, Some(content), &files, defaults());
    assert_eq!(effects, vec![ConfigEffect::UpdateLayout, ConfigEffect::UpdateConfig]);
    assert_eq!(config.cosmic_conf.workspaces.workspace_layout, WorkspaceLayout::Horizontal);
    assert_eq!(config.toml_keybindings.len(), 1);
    let (m, _) = parse_keybinding("Super+A").unwrap();
    assert!(resolver.resolve(&m, "A").is_some());
    assert!(resolver.resolve(&m, "b").is_some());

    let read = load_toml_config(None, defaults());
    config_changed(&mut config, &mut resolver, read, &vec![]);
    assert!(resolver.resolve(&m, "A").is_none());
}

#[test]
fn settings_of_the_desktop_are_read_again() {
    assert_eq!(shortcut_setting_changed("custom"), SettingsReload::Shortcuts);
    assert_eq!(shortcut_setting_changed("system_actions"), SettingsReload::SystemActions);
    assert_eq!(shortcut_setting_changed("other"), SettingsReload::Nothing);
    assert_eq!(
        window_rule_setting_changed("tiling_exception_custom"),
        SettingsReload::TilingExceptions
    );
    assert_eq!(window_rule_setting_changed("custom"), SettingsReload::Nothing);
}

#[test]
fn mice_and_touchpads_are_configured() {
    let document = parse_document(
        "[mouse]\nacceleration = 4.5\nnatural_scroll = true\nscroll_speed = 0.01\n\
         [touchpad]\ntap_to_click = true\ntwo_finger_scroll = true\nclick_method = \"clickfinger\"\n\
         disable_while_typing = false\nacceleration = -0.25\n",
    )
    .unwrap();
    let mut mouse = InputConfig::default();
    parse_mouse_config(&document, &mut mouse);
    assert_eq!(mouse.acceleration.unwrap().speed, number(1.0));
    let scroll = mouse.scroll_config.unwrap();
    assert_eq!(scroll.natural_scroll, Some(true));
    assert_eq!(scroll.scroll_factor, Some(number(0.1)));
    assert_eq!(mouse.left_handed, None);

    let mut touchpad = InputConfig::default();
    parse_touchpad_config(&document, &mut touchpad);
    assert!(touchpad.tap_config.unwrap().enabled);
    assert_eq!(touchpad.scroll_config.unwrap().method, Some(ScrollMethod::TwoFinger));
    assert_eq!(touchpad.click_method, Some(ClickMethod::Clickfinger));
    assert_eq!(touchpad.disable_while_typing, Some(false));
    assert_eq!(touchpad.acceleration.unwrap().speed, number(-0.25));
}

#[test]
fn devices_have_their_own_configuration() {
    let own = InputConfig { left_handed: Some(true), ..InputConfig::default() };
    let devices = vec![("pad".to_string(), own.clone())];
    assert!(get_device_config(&devices, "pad", 0, TouchpadOverride::ForceDisable)
        .unwrap()
        .equals(&own));
    assert!(get_device_config(&devices, "other", 0, TouchpadOverride::NoOverride).is_none());
    let disabled = get_device_config(&devices, "other", 2, TouchpadOverride::ForceDisable).unwrap();
    assert_eq!(disabled.state, InputDeviceState::Disabled);

    let mut default = InputConfig::default();
    assert_eq!(scroll_factor(&None, &default), number(1.0));
    default.map_to_output = Some("DP-1".into());
    assert_eq!(map_to_output(&Some(own), &default), Some("DP-1".into()));
}

#[test]
fn the_keyboard_comes_from_the_first_source() {
    let environment = |layout: Option<&str>| XkbEnvironment {
        layout: layout.map(String::from),
        variant: None,
        model: None,
        rules: None,
        options: Some(String::new()),
    };
    let system = || SystemXkb {
        layout: "fr".into(),
        variant: "azerty".into(),
        model: String::new(),
        options: "ctrl:nocaps".into(),
    };
    let mut configured = keyboard();
    configured.layout = "de".into();
    let r = xkb_config(&configured, environment(Some("us")), system(), Some("uk".into()));
    assert_eq!((r.layout.as_str(), r.variant.as_str()), ("de", ""));
    assert_eq!(r.options, None);
    let r = xkb_config(&keyboard(), environment(Some("us")), system(), None);
    assert_eq!(r.layout, "us");
    let r = xkb_config(&keyboard(), environment(None), system(), Some("uk".into()));
    assert_eq!((r.layout.as_str(), r.variant.as_str()), ("fr", "azerty"));
    assert_eq!(r.options.as_deref(), Some("ctrl:nocaps"));
    let nothing = parse_system_xkb("");
    let r = xkb_config(&keyboard(), environment(None), nothing, Some("uk".into()));
    assert_eq!(r.layout, "uk");
    assert_eq!(xkb_config_to_wl(&r).layout, "uk");
}

#[test]
fn the_keyboard_of_the_system_is_read() {
    let system = parse_system_xkb(
        "   System Locale: LANG=de_DE.UTF-8\n       VC Keymap: de\n      X11 Layout: de,us\n\
         \u{20}      X11 Model: pc105\n     X11 Variant: nodeadkeys,\r\n     X11 Options: caps:escape\n",
    );
    assert_eq!(system.layout, "de,us");
    assert_eq!(system.model, "pc105");
    assert_eq!(system.variant, "nodeadkeys,");
    assert_eq!(system.options, "caps:escape");
    assert_eq!(parse_vconsole_keymap("FONT=x\nKEYMAP=\"de-latin1\"\n"), Some("de-latin1".into()));
    assert_eq!(parse_vconsole_keymap("KEYMAP=\nKEYMAP='us'"), Some("us".into()));
    assert_eq!(parse_vconsole_keymap("#KEYMAP=us"), None);
}

#[test]
fn the_keyboard_of_a_document_is_read() {
    let tc = load_toml_config(
        Some(
            "[xkb_config]\nlayouts = [\"de\", 3, \"us\"]\nvariants = [\"nodeadkeys\", 1]\n\
             layout = \"fr\"\noptions = \"\"\nrepeat_rate = -1\nrepeat_delay = 200\nmodel = \"m\"\n",
        ),
        defaults(),
    );
    let xkb = tc.cosmic.xkb_config;
    assert_eq!(xkb.layout, "de,us");
    assert_eq!(xkb.variant, "nodeadkeys,");
    assert_eq!(xkb.options, None);
    assert_eq!(xkb.repeat_rate, u32::MAX);
    assert_eq!(repeat_info(xkb.repeat_rate, xkb.repeat_delay), (1, 200));
}

#[test]
fn state_is_kept_between_sessions() {
    assert!(load_numlock(StoredState::Read(NumlockStateConfig { last_state: true })).last_state);
    assert!(!load_numlock(StoredState::Broken).last_state);
    let missing: StoredState<ScreenFilter> = StoredState::Missing;
    let broken: StoredState<ScreenFilter> = StoredState::Broken;
    assert!(!missing.removes_file());
    assert!(broken.removes_file());
    assert!(load_filter_state(missing).is_noop());
    let filter = ScreenFilter { inverted: false, color_filter: Some(ColorFilter::Tritanopia) };
    assert!(!filter.is_noop());
    let codes: Vec<u8> = [
        ColorFilter::Greyscale,
        ColorFilter::Protanopia,
        ColorFilter::Deuteranopia,
        ColorFilter::Tritanopia,
    ]
    .iter()
    .map(|f| f.code())
    .collect();
    assert_eq!(codes, vec![1, 2, 3, 4]);

    let mut kept = DynamicConfig {
        outputs: (None, OutputsConfig { profiles: vec![] }),
        numlock: (None, NumlockStateConfig::default()),
        accessibility_filter: (None, ScreenFilter::default()),
    };
    kept.numlock_mut().last_state = true;
    kept.screen_filter_mut().inverted = true;
    kept.outputs_mut().insert(vec![], vec![]);
    assert!(kept.numlock().last_state);
    assert!(!kept.screen_filter().is_noop());
    assert_eq!(kept.outputs().profiles.len(), 1);
    let info = CompOutputInfo::from_properties("DP-1".into(), "Dell".into(), "U".into());
    assert_eq!(info.0.connector, "DP-1");
    assert_eq!(info.0.make, "Dell");
}
