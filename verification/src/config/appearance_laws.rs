//! Which colours and measures follow from the preferences of the user.

use crate::config::appearance;
use crate::config::appearance::{AppearanceConfig, ThemeSection};
use crate::theme;
use crate::theme::{LunarisTheme, Rgb, Rgba};
use vstd::prelude::*;

verus! {

/// The digit of a value below sixteen, as a small or a capital letter from ten on.
pub open spec fn digit_of(value: int, capital: bool) -> u8 {
    if value < 10 {
        (48 + value) as u8
    } else if capital {
        (65 + value - 10) as u8
    } else {
        (97 + value - 10) as u8
    }
}

/// A digit has the value that it stands for, in small and in capital letters.
pub proof fn digits_have_their_value(value: int, capital: bool)
    requires
        0 <= value < 16,
    ensures
        appearance::hex_digit(digit_of(value, capital)) == Some(value),
{
}

/// A colour in two digits for each part is what the digits stand for, and an opacity behind it is
/// left out; a colour in one digit for each part has each of them twice.
pub proof fn colours_are_what_their_digits_say(
    r: u8,
    g: u8,
    b: u8,
    x: u8,
    y: u8,
    capital: bool,
)
    ensures
        ({
            let d = |v: int| digit_of(v, capital);
            let six = seq![
                0x23u8,
                d(r as int / 16),
                d(r as int % 16),
                d(g as int / 16),
                d(g as int % 16),
                d(b as int / 16),
                d(b as int % 16),
            ];
            &&& appearance::hex_color(six) == Some(Rgb { r, g, b })
            &&& appearance::hex_color(six.push(x).push(y)) == Some(Rgb { r, g, b })
            &&& r < 16 && g < 16 && b < 16 ==> appearance::hex_color(
                seq![0x23u8, d(r as int), d(g as int), d(b as int)],
            ) == Some(Rgb { r: (17 * r) as u8, g: (17 * g) as u8, b: (17 * b) as u8 })
        }),
{
    digits_have_their_value(r as int / 16, capital);
    digits_have_their_value(r as int % 16, capital);
    digits_have_their_value(g as int / 16, capital);
    digits_have_their_value(g as int % 16, capital);
    digits_have_their_value(b as int / 16, capital);
    digits_have_their_value(b as int % 16, capital);
    if r < 16 && g < 16 && b < 16 {
        digits_have_their_value(r as int, capital);
        digits_have_their_value(g as int, capital);
        digits_have_their_value(b as int, capital);
    }
}

/// What does not start with `#`, has another length, or has something else than digits in its
/// place, is no colour.
pub proof fn other_texts_are_no_colours(s: Seq<u8>)
    ensures
        s.len() == 0 ==> appearance::hex_color(s) is None,
        s.len() > 0 && s[0] != 0x23 ==> appearance::hex_color(s) is None,
        s.len() != 4 && s.len() != 7 && s.len() != 9 ==> appearance::hex_color(s) is None,
        s.len() == 7 && appearance::hex_digit(s[6]) is None ==> appearance::hex_color(s) is None,
        s.len() == 4 && appearance::hex_digit(s[3]) is None ==> appearance::hex_color(s) is None,
        appearance::hex_digit(0x67) is None && appearance::hex_digit(0x2f) is None
            && appearance::hex_digit(0x3a) is None && appearance::hex_digit(0x60) is None
            && appearance::hex_digit(0x40) is None && appearance::hex_digit(0x47) is None,
{
}

/// The mode is the one that is set, or else the name of the theme; the colour that stands for the
/// foreground is dark in the light mode and light in every other.
pub proof fn the_foreground_follows_the_mode(section: ThemeSection)
    ensures
        section.mode matches Some(mode) ==> appearance::mode_name(section) == mode@,
        section.mode is None ==> (section.active matches Some(active) ==> appearance::mode_name(
            section,
        ) == active@),
        section.mode is None && section.active is None ==> appearance::mode_name(section)
            == "dark"@,
        appearance::mode_name(section) == "light"@ ==> appearance::monochrome(section) == (Rgb {
            r: 23,
            g: 23,
            b: 23,
        }),
        appearance::mode_name(section) != "light"@ ==> appearance::monochrome(section) == (Rgb {
            r: 250,
            g: 250,
            b: 250,
        }),
{
}

/// The accent of the user counts where it is a colour or stands for the foreground, and that of
/// the theme else.
pub proof fn the_accent_of_the_user_comes_first(cfg: AppearanceConfig, theme: LunarisTheme, c: Rgb)
    ensures
        cfg.overrides.accent is None ==> appearance::accent_color(cfg, theme) == (Rgb {
            r: theme.accent.r,
            g: theme.accent.g,
            b: theme.accent.b,
        }),
        cfg.overrides.accent matches Some(accent) ==> accent@ == "$foreground"@
            ==> appearance::accent_color(cfg, theme) == appearance::monochrome(cfg.theme),
        cfg.overrides.accent matches Some(accent) ==> accent@ != "$foreground"@
            && appearance::hex_color(vstd::utf8::encode_utf8(accent@)) == Some(c)
            ==> appearance::accent_color(cfg, theme) == c,
        cfg.overrides.accent matches Some(accent) ==> accent@ != "$foreground"@
            && appearance::hex_color(vstd::utf8::encode_utf8(accent@)) is None
            ==> appearance::accent_color(cfg, theme) == (Rgb {
            r: theme.accent.r,
            g: theme.accent.g,
            b: theme.accent.b,
        }),
{
}

/// The border of the focused window has the colour that the user names, or their accent; without
/// either it is white, and in the light mode black. A name that is no colour changes nothing.
pub proof fn the_border_has_the_colour_that_is_named(
    theme: LunarisTheme,
    cfg: AppearanceConfig,
    c: Rgb,
)
    ensures
        ({
            let hint = appearance::applied(theme, cfg).wm.window_hint;
            let accent = appearance::accent_color(cfg, theme);
            &&& cfg.window.border.focused matches Some(name) ==> name@ == "$accent"@ ==> hint
                == Some(Rgba { r: accent.r, g: accent.g, b: accent.b, a: 255 })
            &&& cfg.window.border.focused matches Some(name) ==> name@ != "$accent"@
                && appearance::hex_color(vstd::utf8::encode_utf8(name@)) == Some(c) ==> hint
                == Some(Rgba { r: c.r, g: c.g, b: c.b, a: 255 })
            &&& cfg.window.border.focused matches Some(name) ==> name@ != "$accent"@
                && appearance::hex_color(vstd::utf8::encode_utf8(name@)) is None ==> hint
                == theme.wm.window_hint
            &&& cfg.window.border.focused is None && cfg.overrides.accent is Some ==> hint == Some(
                Rgba { r: accent.r, g: accent.g, b: accent.b, a: 255 },
            )
            &&& cfg.window.border.focused is None && cfg.overrides.accent is None
                && appearance::mode_name(cfg.theme) != "light"@ ==> hint == Some(
                Rgba { r: 255, g: 255, b: 255, a: 255 },
            )
            &&& cfg.window.border.focused is None && cfg.overrides.accent is None
                && appearance::mode_name(cfg.theme) == "light"@ ==> hint == Some(
                Rgba { r: 0, g: 0, b: 0, a: 255 },
            )
        }),
{
}

/// The width of the border and the factor of the radii are those of the user, where they are set;
/// the colours of the theme stay as they are.
pub proof fn measures_are_those_of_the_user(theme: LunarisTheme, cfg: AppearanceConfig)
    ensures
        ({
            let after = appearance::applied(theme, cfg);
            &&& cfg.window.border_width matches Some(width) ==> after.wm.active_hint == width
            &&& cfg.window.border_width is None ==> after.wm.active_hint == theme.wm.active_hint
            &&& cfg.overrides.radius_intensity matches Some(factor) ==> after.radius.intensity
                == factor
            &&& cfg.overrides.radius_intensity is None ==> after.radius == theme.radius
            &&& after.bg_shell == theme.bg_shell
            &&& after.bg_app == theme.bg_app
            &&& after.fg_primary == theme.fg_primary
            &&& after.accent == theme.accent
            &&& after.error == theme.error
            &&& after.border == theme.border
        }),
{
}

/// A colour is made opaque and loses its opacity without a change of its parts.
pub proof fn opacity_leaves_the_parts_alone(c: Rgb, d: Rgba)
    ensures
        c.solid().r == c.r && c.solid().g == c.g && c.solid().b == c.b && c.solid().a == 255,
        d.color().r == d.r && d.color().g == d.g && d.color().b == d.b,
        c.solid().color() == c,
{
}

/// The theme that the user chose is the active one, or else the mode, or else the dark one.
pub proof fn the_active_theme_comes_first(a: AppearanceConfig)
    ensures
        a.theme.active matches Some(active) ==> theme::active_name(Some(a)) == active@,
        a.theme.active is None ==> (a.theme.mode matches Some(mode) ==> theme::active_name(Some(a))
            == mode@),
        a.theme.active is None && a.theme.mode is None ==> theme::active_name(Some(a)) == "dark"@,
        theme::active_name(None) == "dark"@,
{
}

/// A theme that was composed is in use, and the dark one until then.
pub proof fn composed_themes_are_in_use(cell: theme::ThemeCell)
    ensures
        cell.current matches Some(t) ==> cell.theme() == t,
        cell.current is None ==> cell.theme() == cell.fallback,
{
}

} // verus!
