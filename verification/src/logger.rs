//! What is logged.

use crate::text;
use vstd::prelude::*;
use vstd::string::StringExecFns;

verus! {

/// The level that is logged where the environment names none.
pub open spec fn fallback_level(debug: bool) -> Seq<char> {
    if debug {
        "info"@
    } else {
        "warn"@
    }
}

/// The level that is logged where the environment names none: more while developing.
pub fn default_level(debug: bool) -> (r: String)
    ensures
        r@ == fallback_level(debug),
{
    if debug {
        String::from_str("info")
    } else {
        String::from_str("warn")
    }
}

/// What is logged of single crates: noisy ones are silenced, and where the environment does not
/// say what is logged, the compositor and what it builds on are logged at a level of their own.
pub open spec fn directives(env_set: bool, debug: bool) -> Seq<Seq<char>> {
    let quiet = seq!["cosmic_text=error"@, "calloop=error"@];
    if env_set {
        quiet
    } else if debug {
        quiet + seq!["smithay=debug"@, "cosmic_comp=debug"@]
    } else {
        quiet + seq!["smithay=warn"@, "cosmic_comp=warn"@]
    }
}

/// What is logged of single crates.
pub fn log_directives(env_set: bool, debug: bool) -> (r: Vec<String>)
    ensures
        text::list_view(r@) == directives(env_set, debug),
{
    let mut out: Vec<String> = Vec::new();
    out.push(String::from_str("cosmic_text=error"));
    out.push(String::from_str("calloop=error"));
    if !env_set {
        if debug {
            out.push(String::from_str("smithay=debug"));
            out.push(String::from_str("cosmic_comp=debug"));
        } else {
            out.push(String::from_str("smithay=warn"));
            out.push(String::from_str("cosmic_comp=warn"));
        }
    }
    assert(text::list_view(out@) =~= directives(env_set, debug));
    out
}

/// What the environment says is not overridden: only the noisy crates are touched where it says
/// something.
pub proof fn the_environment_is_respected(debug: bool)
    ensures
        directives(true, debug) == directives(true, !debug),
        directives(true, debug).len() == 2,
{
}

} // verus!
