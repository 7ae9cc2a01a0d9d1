//! The theme that the compositor draws its own surfaces with.

use crate::config::appearance;
use crate::config::appearance::{apply_to_theme, AppearanceConfig};
use crate::number::{Float32, SINGLE_ONE_BITS};
use crate::text::str_eq;
use vstd::prelude::*;
use vstd::string::StringExecFns;

verus! {

/// A colour.
#[derive(Clone, Copy, Debug, PartialEq, Eq, Structural)]
pub struct Rgb {
    pub r: u8,
    pub g: u8,
    pub b: u8,
}

/// A colour with an opacity, from 0 to 255.
#[derive(Clone, Copy, Debug, PartialEq, Eq, Structural)]
pub struct Rgba {
    pub r: u8,
    pub g: u8,
    pub b: u8,
    pub a: u8,
}

impl Rgba {
    /// The colour without its opacity.
    pub open spec fn color(self) -> Rgb {
        Rgb { r: self.r, g: self.g, b: self.b }
    }

    /// The colour without its opacity.
    pub fn rgb(&self) -> (r: Rgb)
        ensures
            r == self.color(),
    {
        Rgb { r: self.r, g: self.g, b: self.b }
    }
}

impl Rgb {
    /// The colour, fully opaque.
    pub open spec fn solid(self) -> Rgba {
        Rgba { r: self.r, g: self.g, b: self.b, a: 255 }
    }

    /// The colour, fully opaque.
    pub fn opaque(&self) -> (r: Rgba)
        ensures
            r == self.solid(),
    {
        Rgba { r: self.r, g: self.g, b: self.b, a: 255 }
    }
}

/// How round the corners of a theme are.
#[derive(Clone, Copy, Debug, PartialEq, Eq, Structural)]
pub struct Radius {
    /// The factor by which the user scales the radii.
    pub intensity: Float32,
}

/// How a theme marks the focused window.
#[derive(Clone, Copy, Debug, PartialEq, Eq, Structural)]
pub struct WindowHint {
    /// The width of the border of the focused window.
    pub active_hint: u32,
    /// The colour of that border, where it is not the accent.
    pub window_hint: Option<Rgba>,
}

/// A theme.
#[derive(Clone, Copy, Debug, PartialEq, Eq, Structural)]
pub struct LunarisTheme {
    /// The background of the shell.
    pub bg_shell: Rgba,
    /// The background of applications.
    pub bg_app: Rgba,
    /// The foreground.
    pub fg_primary: Rgba,
    pub accent: Rgba,
    pub error: Rgba,
    pub border: Rgba,
    pub radius: Radius,
    pub wm: WindowHint,
}

impl LunarisTheme {
    /// The dark theme, with the given accent, error and border colours, the radii not scaled and
    /// the border of the focused window in the accent.
    pub fn lunaris_dark(accent: Rgba, error: Rgba, border: Rgba, active_hint: u32) -> (r: Self)
        ensures
            r == (LunarisTheme {
                bg_shell: Rgb { r: 0x0a, g: 0x0a, b: 0x0a }.solid(),
                bg_app: Rgb { r: 0x0f, g: 0x0f, b: 0x0f }.solid(),
                fg_primary: Rgb { r: 0xfa, g: 0xfa, b: 0xfa }.solid(),
                accent,
                error,
                border,
                radius: Radius { intensity: Float32 { bits: SINGLE_ONE_BITS } },
                wm: WindowHint { active_hint, window_hint: None },
            }),
    {
        LunarisTheme {
            bg_shell: Rgba { r: 0x0a, g: 0x0a, b: 0x0a, a: 255 },
            bg_app: Rgba { r: 0x0f, g: 0x0f, b: 0x0f, a: 255 },
            fg_primary: Rgba { r: 0xfa, g: 0xfa, b: 0xfa, a: 255 },
            accent,
            error,
            border,
            radius: Radius { intensity: Float32 { bits: SINGLE_ONE_BITS } },
            wm: WindowHint { active_hint, window_hint: None },
        }
    }

    /// The accent without its opacity.
    pub fn accent_rgb(&self) -> (r: Rgb)
        ensures
            r == self.accent.color(),
    {
        self.accent.rgb()
    }
}

/// The colour of the border of the focused window.
pub fn lunaris_hint_rgb(theme: &LunarisTheme) -> (r: Rgb)
    ensures
        r == match theme.wm.window_hint {
            Some(hint) => hint.color(),
            None => theme.accent.color(),
        },
{
    match theme.wm.window_hint {
        Some(hint) => hint.rgb(),
        None => theme.accent_rgb(),
    }
}

/// Where the theme in use is kept.
#[derive(Clone, Copy, Debug, PartialEq, Eq, Structural)]
pub struct ThemeCell {
    /// The theme in use; `None` until one has been composed.
    pub current: Option<LunarisTheme>,
    /// The theme to use until then: the dark one.
    pub fallback: LunarisTheme,
}

impl ThemeCell {
    /// The theme in use.
    pub open spec fn theme(self) -> LunarisTheme {
        match self.current {
            Some(theme) => theme,
            None => self.fallback,
        }
    }
}

/// The theme in use; the dark theme until another has been composed.
pub fn lunaris_theme(cell: &ThemeCell) -> (r: LunarisTheme)
    ensures
        r == cell.theme(),
{
    match cell.current {
        Some(theme) => theme,
        None => cell.fallback,
    }
}

/// Puts a theme into use.
pub fn replace_lunaris_theme(cell: &mut ThemeCell, theme: LunarisTheme)
    ensures
        *final(cell) == (ThemeCell { current: Some(theme), ..*old(cell) }),
        final(cell).theme() == theme,
{
    cell.current = Some(theme);
}

/// The theme that others build on.
#[derive(Clone, Copy, Debug, PartialEq, Eq, Structural)]
pub enum BaseTheme {
    Dark,
    Light,
}

/// What a theme is composed of.
#[derive(Debug, PartialEq, Eq)]
pub struct ThemePlan {
    /// The name of the theme that the user chose.
    pub active: String,
    /// The theme to start from.
    pub base: BaseTheme,
    /// Whether the file of a theme that the user installed is merged in.
    pub user_theme: bool,
}

/// The name of the theme that the user chose: the active theme, else the mode, else "dark".
pub open spec fn active_name(appearance: Option<AppearanceConfig>) -> Seq<char> {
    match appearance {
        Some(a) => match (a.theme.active, a.theme.mode) {
            (Some(active), _) => active@,
            (None, Some(mode)) => mode@,
            (None, None) => "dark"@,
        },
        None => "dark"@,
    }
}

/// What the theme for the given preferences is composed of: "light" is the light theme; any other
/// name starts from the dark one, and names an installed theme where it is not "dark".
pub fn theme_plan(appearance: Option<&AppearanceConfig>) -> (r: ThemePlan)
    ensures
        ({
            let name = active_name(match appearance {
                Some(a) => Some(*a),
                None => None,
            });
            &&& r.active@ == name
            &&& r.base == if name == "light"@ {
                BaseTheme::Light
            } else {
                BaseTheme::Dark
            }
            &&& r.user_theme == (name != "dark"@ && name != "light"@)
        }),
{
    let active: String = match appearance {
        Some(a) => match (&a.theme.active, &a.theme.mode) {
            (Some(active), _) => active.clone(),
            (None, Some(mode)) => mode.clone(),
            (None, None) => String::from_str("dark"),
        },
        None => String::from_str("dark"),
    };
    let light: bool = str_eq(active.as_str(), "light");
    let dark: bool = str_eq(active.as_str(), "dark");
    ThemePlan {
        active,
        base: if light {
            BaseTheme::Light
        } else {
            BaseTheme::Dark
        },
        user_theme: !dark && !light,
    }
}

/// The theme for the given preferences: the merged theme, or where the user's files do not parse
/// the base theme, or where that does not parse either the dark one; then what the user changed.
pub fn recompose_effective_theme(
    resolved: Option<LunarisTheme>,
    bundled: Option<LunarisTheme>,
    dark: LunarisTheme,
    appearance: Option<&AppearanceConfig>,
) -> (r: LunarisTheme)
    ensures
        ({
            let base = match (resolved, bundled) {
                (Some(theme), _) => theme,
                (None, Some(theme)) => theme,
                (None, None) => dark,
            };
            r == match appearance {
                Some(a) => appearance::applied(base, *a),
                None => base,
            }
        }),
{
    let mut composed: LunarisTheme = match (resolved, bundled) {
        (Some(theme), _) => theme,
        (None, Some(theme)) => theme,
        (None, None) => dark,
    };
    if let Some(a) = appearance {
        apply_to_theme(&mut composed, a);
    }
    composed
}

/// The user's choice of the border of the focused window is the border that is drawn.
pub proof fn the_border_follows_the_preferences(theme: LunarisTheme, a: AppearanceConfig, c: Rgb)
    requires
        appearance::focused_color(a, theme) == Some(c),
    ensures
        appearance::applied(theme, a).wm.window_hint == Some(c.solid()),
{
}

} // verus!
