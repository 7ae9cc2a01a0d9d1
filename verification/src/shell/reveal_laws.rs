//! When the title bar over a fullscreen window comes and goes.

use crate::number::Float64;
use crate::shell::fullscreen_reveal;
use crate::shell::fullscreen_reveal::{FullscreenRevealState, RevealAction, RevealPhase};
use vstd::prelude::*;

verus! {

/// A hidden title bar appears when the pointer is within 2 pixels of the top edge, and not
/// before.
pub proof fn the_titlebar_appears_at_the_top_edge(
    state: FullscreenRevealState,
    y: Float64,
    id: u32,
    now: u64,
)
    requires
        state.phase == RevealPhase::Hidden,
    ensures
        ({
            let (after, action) = state.updated(y, Some(id), now);
            let near = y.less(Float64 { bits: 0x4000_0000_0000_0000 }) || y.same(
                Float64 { bits: 0x4000_0000_0000_0000 },
            );
            &&& near ==> action == RevealAction::Reveal && after.phase == RevealPhase::Visible
                && after.last_enter == Some(now) && after.hide_timer is None
            &&& !near ==> action == RevealAction::Nothing && after.phase == RevealPhase::Hidden
            &&& after.surface_id == id
        }),
{
}

/// A pointer that leaves the 36 pixels of the title bar starts the time after which that is
/// hidden; it is hidden 300 milliseconds later and not before, and then nothing is left of it.
pub proof fn leaving_the_titlebar_hides_it_after_a_while(
    state: FullscreenRevealState,
    y: Float64,
    left: u64,
    now: u64,
)
    requires
        state.phase == RevealPhase::Visible,
        state.last_enter matches Some(entered) && entered <= left,
        left <= now,
        !y.less(Float64 { bits: 0x4042_0000_0000_0000 }) && !y.same(
            Float64 { bits: 0x4042_0000_0000_0000 },
        ),
    ensures
        ({
            let (waiting, first) = state.updated(y, Some(state.surface_id), left);
            let (after, action) = waiting.updated(y, Some(state.surface_id), now);
            &&& first == RevealAction::Nothing
            &&& waiting.phase == RevealPhase::HidePending
            &&& waiting.hide_timer == Some(left)
            &&& waiting.last_enter == state.last_enter
            &&& waiting.surface_id == state.surface_id
            &&& now - left < 300_000_000 ==> after == waiting && action == RevealAction::Nothing
            &&& now - left >= 300_000_000 ==> action == RevealAction::Hide && after.phase
                == RevealPhase::Hidden && after.surface_id == 0 && after.hide_timer is None
                && after.last_enter is None
        }),
{
}

/// A pointer that comes back to the title bar in time stops it from being hidden, and the time
/// starts anew when it leaves again.
pub proof fn coming_back_keeps_the_titlebar(
    state: FullscreenRevealState,
    y: Float64,
    now: u64,
)
    requires
        state.phase == RevealPhase::HidePending,
        y.less(Float64 { bits: 0x4042_0000_0000_0000 }) || y.same(
            Float64 { bits: 0x4042_0000_0000_0000 },
        ),
    ensures
        ({
            let (after, action) = state.updated(y, Some(state.surface_id), now);
            &&& action == RevealAction::Nothing
            &&& after.phase == RevealPhase::Visible
            &&& after.hide_timer is None
            &&& after.last_enter == Some(now)
            &&& after.surface_id == state.surface_id
        }),
{
}

/// For 50 milliseconds after the pointer came the title bar is not hidden, however long ago it is
/// said to have left.
pub proof fn the_titlebar_does_not_flicker(
    state: FullscreenRevealState,
    y: Float64,
    entered: u64,
    now: u64,
)
    requires
        state.phase == RevealPhase::HidePending,
        state.last_enter == Some(entered),
        entered <= now,
        now - entered < 50_000_000,
    ensures
        state.updated(y, Some(state.surface_id), now).1 == RevealAction::Nothing,
{
}

/// A title bar of another fullscreen window is hidden first, wherever the pointer is.
pub proof fn another_window_hides_the_titlebar(
    state: FullscreenRevealState,
    y: Float64,
    id: u32,
    now: u64,
)
    requires
        state.phase != RevealPhase::Hidden,
        id != state.surface_id,
    ensures
        ({
            let (after, action) = state.updated(y, Some(id), now);
            &&& action == RevealAction::Hide
            &&& after.phase == RevealPhase::Hidden
            &&& after.surface_id == id
            &&& after.hide_timer is None && after.last_enter is None
        }),
        ({
            let (after, action) = state.updated(y, None, now);
            action == RevealAction::Hide && after.surface_id == 0 && after.phase
                == RevealPhase::Hidden
        }),
{
}

/// Time does not run backwards.
pub proof fn time_that_has_passed_is_counted(from: u64, to: u64)
    ensures
        from <= to ==> from + fullscreen_reveal::elapsed(from, to) == to,
        to < from ==> fullscreen_reveal::elapsed(from, to) == 0,
{
}

} // verus!
