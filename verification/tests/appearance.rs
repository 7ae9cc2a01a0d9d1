//! The user's preferences on how windows look, and the theme they are applied to.

use lunaris_compositor::config::appearance::{
    apply_to_theme, current_appearance, default_path, effective_accent, monochrome_for_mode,
    parse_hex_rgb, reloads, resolve_focused, set_appearance, AppearanceCell, AppearanceConfig,
    BorderSection, FileEvent, OverridesSection, ThemeSection, WindowSection, RELOAD_DEBOUNCE_MS,
};
use lunaris_compositor::number::Float32;
use lunaris_compositor::theme::{
    lunaris_hint_rgb, lunaris_theme, recompose_effective_theme, replace_lunaris_theme, theme_plan,
    BaseTheme, LunarisTheme, Rgb, Rgba, ThemeCell,
};

fn single(v: f32) -> Float32 {
    Float32 { bits: v.to_bits() }
}

fn test_theme() -> LunarisTheme {
    LunarisTheme::lunaris_dark(
        Rgba { r: 0x63, g: 0x66, b: 0xf1, a: 255 },
        Rgba { r: 0xef, g: 0x44, b: 0x44, a: 255 },
        Rgba { r: 0x27, g: 0x27, b: 0x2a, a: 255 },
        2,
    )
}

fn section(doc: &toml::Table, path: &[&str]) -> toml::Table {
    let mut table = doc.clone();
    for name in path {
        table = match table.get(*name) {
            Some(t) => t.as_table().unwrap().clone(),
            None => return toml::Table::new(),
        };
    }
    table
}

fn text(table: &toml::Table, key: &str) -> Option<String> {
    table.get(key).map(|v| v.as_str().unwrap().to_string())
}

fn parse(content: &str) -> AppearanceConfig {
    let doc = toml::from_str::<toml::Table>(content).unwrap();
    let theme = section(&doc, &["theme"]);
    let overrides = section(&doc, &["overrides"]);
    let window = section(&doc, &["window"]);
    let border = section(&doc, &["window", "border"]);
    AppearanceConfig {
        theme: ThemeSection { active: text(&theme, "active"), mode: text(&theme, "mode") },
        overrides: OverridesSection {
            accent: text(&overrides, "accent"),
            radius_intensity: overrides
                .get("radius_intensity")
                .map(|v| single(v.as_float().unwrap() as f32)),
        },
        window: WindowSection {
            border_width: window.get("border_width").map(|v| v.as_integer().unwrap() as u32),
            border: BorderSection {
                focused: text(&border, "focused"),
                unfocused: text(&border, "unfocused"),
            },
        },
    }
}

#[test]
fn test_hex_parse_rgb_short() {
    let rgb = parse_hex_rgb("#fff").unwrap();
    assert_eq!(rgb, Rgb { r: 255, g: 255, b: 255 });
}

#[test]
fn test_hex_parse_rrggbb() {
    let rgb = parse_hex_rgb("#6366f1").unwrap();
    assert_eq!(rgb, Rgb { r: 99, g: 102, b: 241 });
}

#[test]
fn test_hex_parse_rrggbbaa_ignores_alpha() {
    let rgb = parse_hex_rgb("#6366f180").unwrap();
    assert_eq!(rgb, Rgb { r: 99, g: 102, b: 241 });
}

#[test]
fn test_hex_parse_invalid() {
    assert!(parse_hex_rgb("not-hex").is_none());
    assert!(parse_hex_rgb("#xyz").is_none());
    assert!(parse_hex_rgb("#12345").is_none());
    assert!(parse_hex_rgb("").is_none());
}

#[test]
fn test_parse_empty_string() {
    let cfg = parse("");
    assert!(cfg.window.border_width.is_none());
    assert!(cfg.window.border.focused.is_none());
    assert!(cfg.overrides.radius_intensity.is_none());
    assert_eq!(cfg, AppearanceConfig::default());
}

#[test]
fn test_parse_radius_intensity() {
    let cfg = parse("[overrides]\nradius_intensity = 1.5\n");
    assert_eq!(cfg.overrides.radius_intensity, Some(single(1.5)));
}

#[test]
fn test_parse_border_sentinels() {
    let cfg = parse("[window.border]\nfocused = \"$accent\"\nunfocused = \"$border\"\n");
    assert_eq!(cfg.window.border.focused.as_deref(), Some("$accent"));
    assert_eq!(cfg.window.border.unfocused.as_deref(), Some("$border"));
}

#[test]
fn test_parse_theme_and_overrides() {
    let cfg = parse(
        "[theme]\nactive = \"light\"\nmode = \"light\"\n\n[overrides]\naccent = \"$foreground\"\n",
    );
    assert_eq!(cfg.theme.mode.as_deref(), Some("light"));
    assert_eq!(cfg.overrides.accent.as_deref(), Some("$foreground"));
}

#[test]
fn intensity_default_value_is_1() {
    let theme = test_theme();
    assert_eq!(theme.radius.intensity, single(1.0));
}

#[test]
fn intensity_override_applies() {
    let mut theme = test_theme();
    let cfg = parse("[overrides]\nradius_intensity = 1.5\n");
    apply_to_theme(&mut theme, &cfg);
    assert_eq!(theme.radius.intensity, single(1.5));
}

#[test]
fn test_apply_border_width() {
    let mut theme = test_theme();
    let cfg = parse("[window]\nborder_width = 3\n");
    apply_to_theme(&mut theme, &cfg);
    assert_eq!(theme.wm.active_hint, 3);
}

#[test]
fn test_effective_accent_foreground_dark() {
    let cfg = parse("[theme]\nmode = \"dark\"\n\n[overrides]\naccent = \"$foreground\"\n");
    let rgb = effective_accent(&cfg, &test_theme());
    assert_eq!(rgb, Rgb { r: 0xfa, g: 0xfa, b: 0xfa });
}

#[test]
fn test_effective_accent_foreground_light() {
    let cfg = parse("[theme]\nmode = \"light\"\n\n[overrides]\naccent = \"$foreground\"\n");
    let rgb = effective_accent(&cfg, &test_theme());
    assert_eq!(rgb, Rgb { r: 0x17, g: 0x17, b: 0x17 });
}

#[test]
fn test_effective_accent_hex_override() {
    let cfg = parse("[overrides]\naccent = \"#ff0000\"\n");
    let rgb = effective_accent(&cfg, &test_theme());
    assert_eq!(rgb, Rgb { r: 255, g: 0, b: 0 });
}

#[test]
fn test_effective_accent_no_override_falls_back_to_theme() {
    let cfg = parse("");
    let theme = test_theme();
    let rgb = effective_accent(&cfg, &theme);
    let expected = theme.accent_rgb();
    assert_eq!(rgb, expected);
}

#[test]
fn hex_colors_have_three_six_or_eight_digits() {
    assert_eq!(parse_hex_rgb("#1a2"), Some(Rgb { r: 0x11, g: 0xaa, b: 0x22 }));
    assert_eq!(parse_hex_rgb("1a2"), None);
    assert_eq!(parse_hex_rgb(" #ABCDEF"), None);
    assert_eq!(parse_hex_rgb("#+a+b+c"), None);
    assert_eq!(parse_hex_rgb("#\u{e9}1"), None);
    assert_eq!(parse_hex_rgb("#a\u{e9}"), None);
    assert_eq!(parse_hex_rgb("#1a2b\u{e9}"), None);
    assert_eq!(parse_hex_rgb("#1a2b"), None);
    assert_eq!(parse_hex_rgb("#ABCDEF"), Some(Rgb { r: 0xab, g: 0xcd, b: 0xef }));
    assert_eq!(parse_hex_rgb("#ab"), None);
}

#[test]
fn the_mode_decides_the_foreground() {
    let theme = |mode: Option<&str>, active: Option<&str>| ThemeSection {
        mode: mode.map(String::from),
        active: active.map(String::from),
    };
    let light = Rgb { r: 0x17, g: 0x17, b: 0x17 };
    let dark = Rgb { r: 0xfa, g: 0xfa, b: 0xfa };
    assert_eq!(monochrome_for_mode(&theme(None, None)), dark);
    assert_eq!(monochrome_for_mode(&theme(None, Some("light"))), light);
    assert_eq!(monochrome_for_mode(&theme(Some("dark"), Some("light"))), dark);
}

#[test]
fn the_focused_border_can_stand_for_the_accent() {
    let theme = test_theme();
    let cfg = parse("[overrides]\naccent = \"#010203\"\n");
    assert_eq!(resolve_focused("$accent", &cfg, &theme), Some(Rgb { r: 1, g: 2, b: 3 }));
    assert_eq!(resolve_focused("$foreground", &cfg, &theme), None);
    assert_eq!(resolve_focused("#040506", &cfg, &theme), Some(Rgb { r: 4, g: 5, b: 6 }));
    assert_eq!(resolve_focused("nonsense", &cfg, &theme), None);
}

#[test]
fn applying_preferences_twice_changes_nothing_more() {
    let cfg = parse(
        "[overrides]\naccent = \"#010203\"\nradius_intensity = 0.5\n[window]\nborder_width = 7\n\
         [window.border]\nfocused = \"$accent\"\n",
    );
    let mut theme = test_theme();
    apply_to_theme(&mut theme, &cfg);
    assert_eq!(theme.wm.window_hint, Some(Rgba { r: 1, g: 2, b: 3, a: 255 }));
    assert_eq!(lunaris_hint_rgb(&theme), Rgb { r: 1, g: 2, b: 3 });
    let once = theme;
    apply_to_theme(&mut theme, &cfg);
    assert_eq!(theme, once);
}

#[test]
fn preferences_are_read_again_when_their_file_changes() {
    assert!(reloads(FileEvent::Modified, true, RELOAD_DEBOUNCE_MS));
    assert!(reloads(FileEvent::Removed, true, 5000));
    assert!(!reloads(FileEvent::Modified, true, RELOAD_DEBOUNCE_MS - 1));
    assert!(!reloads(FileEvent::Modified, false, 5000));
    assert!(!reloads(FileEvent::Other, true, 5000));
}

#[test]
fn preferences_have_their_place() {
    assert_eq!(default_path(Some("/cfg"), Some("/home/u")), "/cfg/lunaris/appearance.toml");
    assert_eq!(default_path(Some(""), Some("/home/u")), "/home/u/.config/lunaris/appearance.toml");
    assert_eq!(default_path(None, None), "/tmp/.config/lunaris/appearance.toml");
}

#[test]
fn themes_are_composed_of_a_base_and_the_preferences() {
    let plan = theme_plan(None);
    assert_eq!((plan.active.as_str(), plan.base, plan.user_theme), ("dark", BaseTheme::Dark, false));
    let light = parse("[theme]\nmode = \"light\"\n");
    let plan = theme_plan(Some(&light));
    assert_eq!(plan.base, BaseTheme::Light);
    assert!(!plan.user_theme);
    let own = parse("[theme]\nactive = \"nord\"\nmode = \"light\"\n");
    let plan = theme_plan(Some(&own));
    assert_eq!((plan.active.as_str(), plan.base, plan.user_theme), ("nord", BaseTheme::Dark, true));

    let dark = test_theme();
    let mut other = dark;
    other.wm.active_hint = 9;
    assert_eq!(recompose_effective_theme(None, None, dark, None), dark);
    assert_eq!(recompose_effective_theme(None, Some(other), dark, None), other);
    let wide = parse("[window]\nborder_width = 4\n");
    let composed = recompose_effective_theme(Some(other), None, dark, Some(&wide));
    assert_eq!(composed.wm.active_hint, 4);
}

#[test]
fn a_replaced_theme_is_the_theme() {
    let mut cell = ThemeCell { current: None, fallback: test_theme() };
    assert_eq!(lunaris_theme(&cell), test_theme());
    let mut other = test_theme();
    other.wm.active_hint = 9;
    replace_lunaris_theme(&mut cell, other);
    assert_eq!(lunaris_theme(&cell), other);
}

#[test]
fn the_preferences_read_last_are_in_place() {
    let mut cell = AppearanceCell::new();
    assert!(current_appearance(&cell).is_none());
    let mut cfg = AppearanceConfig::default();
    cfg.window.border_width = Some(3);
    set_appearance(&mut cell, cfg);
    assert_eq!(current_appearance(&cell).unwrap().window.border_width, Some(3));
    set_appearance(&mut cell, AppearanceConfig::default());
    assert_eq!(current_appearance(&cell).unwrap().window.border_width, None);
}
