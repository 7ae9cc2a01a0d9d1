//! Paths, what is logged, the labels of shortcuts and the versions of interfaces.

use crate::config::dynamic::ColorFilter;
use crate::config::key_bindings::ResizeDirection;
use crate::dbus::error;
use crate::dbus::error::ErrorModel;
use crate::logger;
use crate::path;
use crate::shell::element::resize_indicator;
use crate::shell::element::resize_indicator::ResizeShortcut;
use crate::shell::element::surface::CosmicSurface;
use crate::text;
use crate::wayland::client;
use vstd::prelude::*;

verus! {

/// A path from the root replaces the one that it is adjoined to; any other follows it, with one
/// separator between them.
pub proof fn paths_are_joined_by_one_separator(base: Seq<char>, rest: Seq<char>)
    ensures
        rest.len() > 0 && rest[0] == '/' ==> path::joined(base, rest) == rest,
        (rest.len() == 0 || rest[0] != '/') && base.len() > 0 && base.last() != '/'
            ==> path::joined(base, rest) == base.push('/') + rest,
        (rest.len() == 0 || rest[0] != '/') && base.len() > 0 && base.last() == '/'
            ==> path::joined(base, rest) == base + rest,
        path::joined(seq![], rest) == rest,
{
    assert(base + seq!['/'] + rest =~= base.push('/') + rest);
    assert(Seq::<char>::empty() + rest =~= rest);
}

/// While developing more is logged; what the environment says is not overridden, and the crates
/// that are silenced are silenced in any case.
pub proof fn more_is_logged_while_developing(env_set: bool, debug: bool)
    ensures
        debug ==> logger::fallback_level(debug) == "info"@,
        !debug ==> logger::fallback_level(debug) == "warn"@,
        logger::directives(env_set, debug).contains("cosmic_text=error"@),
        logger::directives(env_set, debug).contains("calloop=error"@),
        env_set ==> logger::directives(env_set, debug).len() == 2,
        !env_set ==> logger::directives(env_set, debug).len() == 4,
        !env_set && debug ==> logger::directives(env_set, debug).contains("smithay=debug"@)
            && logger::directives(env_set, debug).contains("cosmic_comp=debug"@),
        !env_set && !debug ==> logger::directives(env_set, debug).contains("smithay=warn"@)
            && logger::directives(env_set, debug).contains("cosmic_comp=warn"@),
{
    let all = logger::directives(env_set, debug);
    assert(all[0] == "cosmic_text=error"@ && all[1] == "calloop=error"@);
    if !env_set && debug {
        assert(all[2] == "smithay=debug"@ && all[3] == "cosmic_comp=debug"@);
    } else if !env_set {
        assert(all[2] == "smithay=warn"@ && all[3] == "cosmic_comp=warn"@);
    }
}

/// The keys of a direction are those of the first shortcut in it, followed by a colon; where
/// there is none, the text for that is shown.
pub proof fn the_first_shortcut_is_shown(
    shortcuts: Seq<ResizeShortcut>,
    direction: ResizeDirection,
    unknown: Seq<char>,
    k: int,
)
    ensures
        0 <= k < shortcuts.len() && shortcuts[k].resizing == Some(direction) && (forall|i: int|
            0 <= i < k ==> (#[trigger] shortcuts[i]).resizing != Some(direction))
            ==> resize_indicator::label(shortcuts, direction, unknown) == shortcuts[k].pattern@
            + ": "@,
        (forall|i: int|
            0 <= i < shortcuts.len() ==> (#[trigger] shortcuts[i]).resizing != Some(direction))
            ==> resize_indicator::label(shortcuts, direction, unknown) == unknown,
    decreases shortcuts.len(),
{
    if shortcuts.len() > 0 && shortcuts[0].resizing != Some(direction) {
        let rest = shortcuts.skip(1);
        assert forall|i: int| 0 <= i < rest.len() implies #[trigger] rest[i] == shortcuts[i
            + 1] by {}
        the_first_shortcut_is_shown(rest, direction, unknown, k - 1);
    }
}

/// The client knows three interfaces, each up to a version.
pub proof fn three_interfaces_are_known(interface: Seq<char>)
    ensures
        client::known_version(interface) == Some(4u32) <==> interface == "wl_compositor"@,
        client::known_version(interface) == Some(1u32) <==> interface == "wl_shm"@,
        client::known_version(interface) == Some(2u32) <==> interface == "xdg_wm_base"@,
        client::known_version(interface) is None <==> interface != "wl_compositor"@ && interface
            != "wl_shm"@ && interface != "xdg_wm_base"@,
{
    reveal_strlit("wl_compositor");
    reveal_strlit("wl_shm");
    reveal_strlit("xdg_wm_base");
    assert("wl_compositor"@.len() == 13 && "wl_shm"@.len() == 6 && "xdg_wm_base"@.len() == 11);
}

/// The shader knows the filters by their numbers from one on.
pub proof fn filters_are_numbered(filter: ColorFilter)
    ensures
        filter == ColorFilter::Greyscale <==> filter.number() == 1,
        filter == ColorFilter::Protanopia <==> filter.number() == 2,
        filter == ColorFilter::Deuteranopia <==> filter.number() == 3,
        filter == ColorFilter::Tritanopia <==> filter.number() == 4,
{
}

/// The text of an error quotes what it is about.
pub proof fn errors_quote_what_they_are_about(a: Seq<char>, b: Seq<char>)
    ensures
        error::message_of(ErrorModel::UnknownScope { scope: a })
            == "scope must be app_focused or app_global, got "@ + text::debug_form(a),
        error::message_of(ErrorModel::AppIdMismatch { registered: a, claimed: b })
            == "app_id mismatch: caller registered as "@ + text::debug_form(a) + " but claimed "@
            + text::debug_form(b),
        error::message_of(ErrorModel::GlobalNotPermitted { app_id: a })
            == "app_global scope requires the 'register_global_bindings' permission; "@
            + text::debug_form(a) + " registered without it"@,
{
}

/// Telling a client changes nothing but that it is told.
pub proof fn a_configured_surface_is_told(w: CosmicSurface)
    ensures
        w.configured().configure,
        w.configure ==> w.configured() == w,
        w.configured().id == w.id && w.configured().activated == w.activated
            && w.configured().tiled == w.tiled && w.configured().requested == w.requested
            && w.configured().suspended == w.suspended,
{
}

} // verus!
