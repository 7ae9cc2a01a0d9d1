//! What can be customised when the compositor is built.

use vstd::prelude::*;

verus! {

/// What is run at certain points; nothing so far.
#[derive(Clone, Copy, Debug, PartialEq, Eq, Structural)]
pub struct Hooks {}

impl Default for Hooks {
    /// Nothing.
    fn default() -> (r: Self)
        ensures
            r == (Hooks {  }),
    {
        Hooks {  }
    }
}

} // verus!
