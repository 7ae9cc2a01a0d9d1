//! What a client of the compositor binds.

use crate::text::str_eq;
use vstd::prelude::*;

verus! {

/// The newest version of an interface that the client knows.
pub open spec fn known_version(interface: Seq<char>) -> Option<u32> {
    if interface == "wl_compositor"@ {
        Some(4)
    } else if interface == "wl_shm"@ {
        Some(1)
    } else if interface == "xdg_wm_base"@ {
        Some(2)
    } else {
        None
    }
}

/// The version of an interface that the client binds: the newest that both sides know; `None`
/// for interfaces that it does not use.
pub fn bound_version(interface: &str, version: u32) -> (r: Option<u32>)
    ensures
        r == match known_version(interface@) {
            Some(known) => Some(
                if version < known {
                    version
                } else {
                    known
                },
            ),
            None => None,
        },
{
    let known: u32 = if str_eq(interface, "wl_compositor") {
        4
    } else if str_eq(interface, "wl_shm") {
        1
    } else if str_eq(interface, "xdg_wm_base") {
        2
    } else {
        return None;
    };
    Some(
        if version < known {
            version
        } else {
            known
        },
    )
}

} // verus!
