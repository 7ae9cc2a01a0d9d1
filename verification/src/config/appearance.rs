//! How the user wants the compositor to look.

use crate::number::Float32;
use crate::path;
use crate::path::join_paths;
use crate::text::str_eq;
use crate::theme::{LunarisTheme, Rgb};
use vstd::prelude::*;
use vstd::string::StringExecFns;

verus! {

/// The settings of window borders.
#[derive(Debug, PartialEq, Eq)]
pub struct BorderSection {
    /// The colour of the border of the focused window, or `$accent`.
    pub focused: Option<String>,
    /// The colour of the border of other windows, or `$border`.
    pub unfocused: Option<String>,
}

/// The settings of windows.
#[derive(Debug, PartialEq, Eq)]
pub struct WindowSection {
    pub border_width: Option<u32>,
    pub border: BorderSection,
}

/// The settings of the theme.
#[derive(Debug, PartialEq, Eq)]
pub struct ThemeSection {
    /// The name of the theme.
    pub active: Option<String>,
    /// `light` or `dark`.
    pub mode: Option<String>,
}

/// The settings that take the place of those of the theme.
#[derive(Debug, PartialEq, Eq)]
pub struct OverridesSection {
    /// The accent, or `$foreground` for that of the mode.
    pub accent: Option<String>,
    /// The factor by which the radii are scaled.
    pub radius_intensity: Option<Float32>,
}

/// How the user wants the compositor to look.
#[derive(Debug, PartialEq, Eq)]
pub struct AppearanceConfig {
    pub theme: ThemeSection,
    pub overrides: OverridesSection,
    pub window: WindowSection,
}

impl Default for AppearanceConfig {
    /// No preferences.
    fn default() -> (r: Self)
        ensures
            r == (AppearanceConfig {
                theme: ThemeSection { active: None, mode: None },
                overrides: OverridesSection { accent: None, radius_intensity: None },
                window: WindowSection {
                    border_width: None,
                    border: BorderSection { focused: None, unfocused: None },
                },
            }),
    {
        AppearanceConfig {
            theme: ThemeSection { active: None, mode: None },
            overrides: OverridesSection { accent: None, radius_intensity: None },
            window: WindowSection {
                border_width: None,
                border: BorderSection { focused: None, unfocused: None },
            },
        }
    }
}

/// The path of the preferences: below the directory for configuration where one is named, and
/// else below `.config` in the home directory, or in `/tmp` where there is none.
pub fn default_path(config_home: Option<&str>, home: Option<&str>) -> (r: String)
    ensures
        ({
            let dir = match config_home {
                Some(dir) if dir@.len() > 0 => dir@,
                _ => path::joined(
                    match home {
                        Some(home) => home@,
                        None => "/tmp"@,
                    },
                    ".config"@,
                ),
            };
            r@ == path::joined(
                path::joined(dir, "lunaris"@),
                "appearance.toml"@,
            )
        }),
{
    let dir: String = match config_home {
        Some(dir) if !dir.is_empty() => String::from_str(dir),
        _ => join_paths(
            match home {
                Some(home) => home,
                None => "/tmp",
            },
            ".config",
        ),
    };
    let lunaris: String = join_paths(dir.as_str(), "lunaris");
    join_paths(lunaris.as_str(), "appearance.toml")
}

/// The value of a hexadecimal digit.
pub open spec fn hex_digit(b: u8) -> Option<int> {
    if 0x30 <= b <= 0x39 {
        Some(b - 0x30)
    } else if 0x61 <= b <= 0x66 {
        Some(b - 0x61 + 10)
    } else if 0x41 <= b <= 0x46 {
        Some(b - 0x41 + 10)
    } else {
        None
    }
}

/// The value of `width` bytes from `start` on, one or two of them, as a hexadecimal number.
pub open spec fn hex_number(s: Seq<u8>, start: int, width: int) -> Option<int> {
    if width == 1 {
        hex_digit(s[start])
    } else {
        match (hex_digit(s[start]), hex_digit(s[start + 1])) {
            (Some(high), Some(low)) => Some(16 * high + low),
            _ => None,
        }
    }
}

/// The number of digits of each part of a colour that is written in the given number of bytes
/// behind `#`.
pub open spec fn part_width(len: int) -> Option<int> {
    if len == 3 {
        Some(1)
    } else if len == 6 || len == 8 {
        Some(2)
    } else {
        None
    }
}

/// The colour that is written as the given bytes: `#rgb`, `#rrggbb` or `#rrggbbaa`, whose opacity
/// is left out.
pub open spec fn hex_color(s: Seq<u8>) -> Option<Rgb> {
    if s.len() == 0 || s[0] != 0x23 {
        None
    } else {
        match part_width(s.len() - 1) {
            Some(w) => match (
                hex_number(s, 1, w),
                hex_number(s, 1 + w, w),
                hex_number(s, 1 + 2 * w, w),
            ) {
                (Some(r), Some(g), Some(b)) => {
                    let scale = if w == 1 {
                        17int
                    } else {
                        1
                    };
                    Some(
                        Rgb {
                            r: (scale * r) as u8,
                            g: (scale * g) as u8,
                            b: (scale * b) as u8,
                        },
                    )
                },
                _ => None,
            },
            None => None,
        }
    }
}

/// The value of a hexadecimal digit.
fn digit_value(b: u8) -> (r: Option<u8>)
    ensures
        match r {
            Some(v) => hex_digit(b) == Some(v as int) && v < 16,
            None => hex_digit(b) is None,
        },
{
    if 0x30 <= b && b <= 0x39 {
        Some(b - 0x30)
    } else if 0x61 <= b && b <= 0x66 {
        Some(b - 0x61 + 10)
    } else if 0x41 <= b && b <= 0x46 {
        Some(b - 0x41 + 10)
    } else {
        None
    }
}

/// The value of one or two bytes as a hexadecimal number.
fn number_value(s: &[u8], start: usize, width: usize) -> (r: Option<u8>)
    requires
        width == 1 || width == 2,
        start + width <= s@.len(),
    ensures
        match r {
            Some(v) => hex_number(s@, start as int, width as int) == Some(v as int) && (width == 1
                ==> v < 16),
            None => hex_number(s@, start as int, width as int) is None,
        },
{
    if width == 1 {
        return digit_value(s[start]);
    }
    match (digit_value(s[start]), digit_value(s[start + 1])) {
        (Some(high), Some(low)) => Some(16 * high + low),
        _ => None,
    }
}

/// The number of digits of each part of a colour.
fn width_of_parts(len: usize) -> (r: Option<usize>)
    ensures
        match r {
            Some(w) => part_width(len as int) == Some(w as int) && (w == 1 || w == 2) && 3 * w
                <= len,
            None => part_width(len as int) is None,
        },
{
    if len == 3 {
        Some(1)
    } else if len == 6 || len == 8 {
        Some(2)
    } else {
        None
    }
}

/// The colour that a text writes as `#rgb`, `#rrggbb` or `#rrggbbaa`, whose opacity is left out;
/// `None` where it is no such text.
pub fn parse_hex_rgb(hex: &str) -> (r: Option<Rgb>)
    ensures
        r == hex_color(vstd::utf8::encode_utf8(hex@)),
{
    let s: &[u8] = hex.as_bytes();
    if s.len() == 0 || s[0] != 0x23 {
        return None;
    }
    match width_of_parts(s.len() - 1) {
        Some(w) => match (
            number_value(s, 1, w),
            number_value(s, 1 + w, w),
            number_value(s, 1 + 2 * w, w),
        ) {
            (Some(r), Some(g), Some(b)) => {
                if w == 1 {
                    Some(Rgb { r: 17 * r, g: 17 * g, b: 17 * b })
                } else {
                    Some(Rgb { r, g, b })
                }
            },
            _ => None,
        },
        None => None,
    }
}

/// The mode: that of the preferences, else the name of the theme, else "dark".
pub open spec fn mode_name(theme: ThemeSection) -> Seq<char> {
    match (theme.mode, theme.active) {
        (Some(mode), _) => mode@,
        (None, Some(active)) => active@,
        (None, None) => "dark"@,
    }
}

/// Whether the mode is the light one.
fn is_light(theme: &ThemeSection) -> (r: bool)
    ensures
        r == (mode_name(*theme) == "light"@),
{
    match (&theme.mode, &theme.active) {
        (Some(mode), _) => str_eq(mode.as_str(), "light"),
        (None, Some(active)) => str_eq(active.as_str(), "light"),
        (None, None) => str_eq("dark", "light"),
    }
}

/// The foreground of the mode.
pub open spec fn monochrome(theme: ThemeSection) -> Rgb {
    if mode_name(theme) == "light"@ {
        Rgb { r: 0x17, g: 0x17, b: 0x17 }
    } else {
        Rgb { r: 0xfa, g: 0xfa, b: 0xfa }
    }
}

/// The foreground of the mode.
pub fn monochrome_for_mode(theme: &ThemeSection) -> (r: Rgb)
    ensures
        r == monochrome(*theme),
{
    if is_light(theme) {
        Rgb { r: 0x17, g: 0x17, b: 0x17 }
    } else {
        Rgb { r: 0xfa, g: 0xfa, b: 0xfa }
    }
}

/// The accent: that of the preferences, where it is a colour or stands for the foreground, and
/// else that of the theme.
pub open spec fn accent_color(cfg: AppearanceConfig, theme: LunarisTheme) -> Rgb {
    match cfg.overrides.accent {
        Some(accent) => if accent@ == "$foreground"@ {
            monochrome(cfg.theme)
        } else {
            match hex_color(vstd::utf8::encode_utf8(accent@)) {
                Some(color) => color,
                None => theme.accent.color(),
            }
        },
        None => theme.accent.color(),
    }
}

/// The accent that the user sees.
pub fn effective_accent(cfg: &AppearanceConfig, theme: &LunarisTheme) -> (r: Rgb)
    ensures
        r == accent_color(*cfg, *theme),
{
    if let Some(accent) = &cfg.overrides.accent {
        if str_eq(accent.as_str(), "$foreground") {
            return monochrome_for_mode(&cfg.theme);
        }
        if let Some(color) = parse_hex_rgb(accent.as_str()) {
            return color;
        }
    }
    theme.accent_rgb()
}

/// The colour of the border of the focused window: that of the preferences, where it is a colour
/// or stands for the accent; where there is none, the accent of the preferences, or white for a
/// dark mode and black for the light one.
pub open spec fn focused_color(cfg: AppearanceConfig, theme: LunarisTheme) -> Option<Rgb> {
    match cfg.window.border.focused {
        Some(focused) => if focused@ == "$accent"@ {
            Some(accent_color(cfg, theme))
        } else {
            hex_color(vstd::utf8::encode_utf8(focused@))
        },
        None => if cfg.overrides.accent is Some {
            Some(accent_color(cfg, theme))
        } else if mode_name(cfg.theme) != "light"@ {
            Some(Rgb { r: 255, g: 255, b: 255 })
        } else {
            Some(Rgb { r: 0, g: 0, b: 0 })
        },
    }
}

/// The colour that a setting names for the border of the focused window.
pub fn resolve_focused(value: &str, cfg: &AppearanceConfig, theme: &LunarisTheme) -> (r: Option<
    Rgb,
>)
    ensures
        r == if value@ == "$accent"@ {
            Some(accent_color(*cfg, *theme))
        } else {
            hex_color(vstd::utf8::encode_utf8(value@))
        },
{
    if str_eq(value, "$accent") {
        return Some(effective_accent(cfg, theme));
    }
    parse_hex_rgb(value)
}

/// The colour of the border of the focused window.
fn choose_focused(cfg: &AppearanceConfig, theme: &LunarisTheme) -> (r: Option<Rgb>)
    ensures
        r == focused_color(*cfg, *theme),
{
    match &cfg.window.border.focused {
        Some(focused) => resolve_focused(focused.as_str(), cfg, theme),
        None => if cfg.overrides.accent.is_some() {
            Some(effective_accent(cfg, theme))
        } else if !is_light(&cfg.theme) {
            Some(Rgb { r: 255, g: 255, b: 255 })
        } else {
            Some(Rgb { r: 0, g: 0, b: 0 })
        },
    }
}

/// A theme with the preferences applied: the factor of its radii, the width of the border of the
/// focused window, and the colour of that border, which stays where the preferences name no
/// colour.
pub open spec fn applied(theme: LunarisTheme, cfg: AppearanceConfig) -> LunarisTheme {
    LunarisTheme {
        radius: crate::theme::Radius {
            intensity: match cfg.overrides.radius_intensity {
                Some(intensity) => intensity,
                None => theme.radius.intensity,
            },
        },
        wm: crate::theme::WindowHint {
            active_hint: match cfg.window.border_width {
                Some(width) => width,
                None => theme.wm.active_hint,
            },
            window_hint: match focused_color(cfg, theme) {
                Some(color) => Some(color.solid()),
                None => theme.wm.window_hint,
            },
        },
        ..theme
    }
}

/// Applies the preferences to a theme.
pub fn apply_to_theme(theme: &mut LunarisTheme, cfg: &AppearanceConfig)
    ensures
        *final(theme) == applied(*old(theme), *cfg),
{
    if let Some(intensity) = cfg.overrides.radius_intensity {
        theme.radius.intensity = intensity;
    }
    if let Some(width) = cfg.window.border_width {
        theme.wm.active_hint = width;
    }
    match choose_focused(cfg, theme) {
        Some(color) => {
            theme.wm.window_hint = Some(color.opaque());
        },
        None => {},
    }
}

/// The shortest time between two reloads of the preferences, in milliseconds.
pub const RELOAD_DEBOUNCE_MS: u64 = 120;

/// What happened to a file.
#[derive(Clone, Copy, Debug, PartialEq, Eq, Structural)]
pub enum FileEvent {
    Created,
    Modified,
    Removed,
    Other,
}

/// Whether the preferences are read again: their file was created, changed or removed, and that
/// is not too soon after the last time.
pub fn reloads(event: FileEvent, touches_file: bool, elapsed_ms: u64) -> (r: bool)
    ensures
        r == (event != FileEvent::Other && touches_file && elapsed_ms >= RELOAD_DEBOUNCE_MS),
{
    event != FileEvent::Other && touches_file && elapsed_ms >= RELOAD_DEBOUNCE_MS
}

/// Where the preferences of the user are kept.
#[derive(Debug, PartialEq, Eq)]
pub struct AppearanceCell {
    /// The preferences; `None` until they have been read.
    pub current: Option<AppearanceConfig>,
}

impl AppearanceCell {
    /// No preferences have been read.
    pub fn new() -> (r: Self)
        ensures
            r.current is None,
    {
        AppearanceCell { current: None }
    }
}

/// Puts preferences in place of those that were there.
pub fn set_appearance(cell: &mut AppearanceCell, cfg: AppearanceConfig)
    ensures
        final(cell).current == Some(cfg),
{
    cell.current = Some(cfg);
}

/// The preferences that were read last; `None` where none were.
pub fn current_appearance(cell: &AppearanceCell) -> (r: Option<&AppearanceConfig>)
    ensures
        match r {
            Some(cfg) => cell.current == Some(*cfg),
            None => cell.current is None,
        },
{
    match &cell.current {
        Some(cfg) => Some(cfg),
        None => None,
    }
}

/// Applying the preferences again changes nothing.
pub proof fn applying_twice_is_applying_once(theme: LunarisTheme, cfg: AppearanceConfig)
    ensures
        applied(applied(theme, cfg), cfg) == applied(theme, cfg),
{
}

/// No preferences leave the radii and the width of the border as they are.
pub proof fn no_preferences_keep_the_measures(theme: LunarisTheme, cfg: AppearanceConfig)
    requires
        cfg.overrides.radius_intensity is None,
        cfg.window.border_width is None,
    ensures
        applied(theme, cfg).radius == theme.radius,
        applied(theme, cfg).wm.active_hint == theme.wm.active_hint,
{
}

/// The two ways to write a colour agree: doubling each digit of `#rgb` names the same colour.
pub proof fn short_colors_double_their_digits(r: u8, g: u8, b: u8)
    requires
        hex_digit(r) is Some,
        hex_digit(g) is Some,
        hex_digit(b) is Some,
    ensures
        hex_color(seq![0x23u8, r, g, b]) == hex_color(seq![0x23u8, r, r, g, g, b, b]),
        hex_color(seq![0x23u8, r, g, b]) is Some,
{
    let short = seq![0x23u8, r, g, b];
    let long = seq![0x23u8, r, r, g, g, b, b];
    assert(short.len() == 4 && long.len() == 7);
    assert(hex_number(short, 1, 1) == hex_digit(r));
    assert(hex_number(short, 2, 1) == hex_digit(g));
    assert(hex_number(short, 3, 1) == hex_digit(b));
    assert(hex_number(long, 1, 2) == Some(17 * hex_digit(r)->0));
    assert(hex_number(long, 3, 2) == Some(17 * hex_digit(g)->0));
    assert(hex_number(long, 5, 2) == Some(17 * hex_digit(b)->0));
}

} // verus!
