//! The title bar that appears over a fullscreen window while the pointer is at the top edge.

use crate::number::Float64;
use vstd::prelude::*;

verus! {

/// The bits of 2, the height of the zone at the top edge.
pub const EDGE_THRESHOLD_BITS: u64 = 0x4000_0000_0000_0000;

/// The bits of 36, the height of the title bar.
pub const TITLEBAR_HEIGHT_BITS: u64 = 0x4042_0000_0000_0000;

/// How long the title bar stays after the pointer has left it, in nanoseconds.
pub const HIDE_DELAY: u64 = 300_000_000;

/// How long after the pointer came back the title bar does not go away, in nanoseconds.
pub const DEBOUNCE: u64 = 50_000_000;

/// Whether the title bar is shown.
#[derive(Clone, Copy, Debug, PartialEq, Eq, Structural)]
pub enum RevealPhase {
    /// It is not.
    Hidden,
    /// It is.
    Visible,
    /// It is, and the pointer has left it.
    HidePending,
}

/// What the shell is told.
#[derive(Clone, Copy, Debug, PartialEq, Eq, Structural)]
pub enum RevealAction {
    /// Nothing.
    Nothing,
    /// To show the title bar.
    Reveal,
    /// To hide the title bar.
    Hide,
}

/// The state of the title bar on an output. Times are in nanoseconds.
#[derive(Clone, Copy, Debug, PartialEq, Eq, Structural)]
pub struct FullscreenRevealState {
    pub phase: RevealPhase,
    /// The fullscreen window, or 0.
    pub surface_id: u32,
    /// When the pointer left the title bar.
    pub hide_timer: Option<u64>,
    /// When the pointer last came to the title bar.
    pub last_enter: Option<u64>,
}

/// The state with no title bar.
pub open spec fn hidden() -> FullscreenRevealState {
    FullscreenRevealState {
        phase: RevealPhase::Hidden,
        surface_id: 0,
        hide_timer: None,
        last_enter: None,
    }
}

impl Default for FullscreenRevealState {
    /// No title bar.
    fn default() -> (r: Self)
        ensures
            r == hidden(),
    {
        FullscreenRevealState {
            phase: RevealPhase::Hidden,
            surface_id: 0,
            hide_timer: None,
            last_enter: None,
        }
    }
}

/// The time from one moment to a later one; none where it is not later.
pub open spec fn elapsed(from: u64, to: u64) -> int {
    if to > from {
        to - from
    } else {
        0
    }
}

/// The time from one moment to a later one; none where it is not later.
fn time_between(from: u64, to: u64) -> (r: u64)
    ensures
        r == elapsed(from, to),
{
    if to > from {
        to - from
    } else {
        0
    }
}

/// Whether a height on the screen is not below the end of the zone at the top edge.
pub open spec fn in_edge(y: Float64) -> bool {
    y.less(Float64 { bits: EDGE_THRESHOLD_BITS }) || y.same(Float64 { bits: EDGE_THRESHOLD_BITS })
}

/// Whether a height on the screen is not below the end of the title bar.
pub open spec fn in_titlebar(y: Float64) -> bool {
    y.less(Float64 { bits: TITLEBAR_HEIGHT_BITS }) || y.same(
        Float64 { bits: TITLEBAR_HEIGHT_BITS },
    )
}

impl FullscreenRevealState {
    /// Whether the shell shows the title bar.
    pub open spec fn shown(self) -> bool {
        self.phase != RevealPhase::Hidden
    }

    /// Whether the times are recorded that the phase goes by: the title bar is about to be hidden
    /// exactly while the time is known when the pointer left it.
    pub open spec fn valid(self) -> bool {
        &&& (self.phase == RevealPhase::HidePending) == (self.hide_timer is Some)
        &&& self.shown() == (self.last_enter is Some)
    }

    /// Whether the time to hide the title bar has come.
    pub open spec fn hide_due(self, now: u64) -> bool {
        &&& self.hide_timer matches Some(left) && elapsed(left, now) >= HIDE_DELAY
        &&& self.last_enter matches Some(entered) ==> elapsed(entered, now) >= DEBOUNCE
    }

    /// The state and what the shell is told, for the same fullscreen window.
    pub open spec fn moved(self, y: Float64, now: u64) -> (Self, RevealAction) {
        match self.phase {
            RevealPhase::Hidden => if in_edge(y) {
                (
                    FullscreenRevealState {
                        phase: RevealPhase::Visible,
                        hide_timer: None,
                        last_enter: Some(now),
                        ..self
                    },
                    RevealAction::Reveal,
                )
            } else {
                (self, RevealAction::Nothing)
            },
            RevealPhase::Visible => if in_titlebar(y) {
                (self, RevealAction::Nothing)
            } else {
                (
                    FullscreenRevealState {
                        phase: RevealPhase::HidePending,
                        hide_timer: Some(now),
                        ..self
                    },
                    RevealAction::Nothing,
                )
            },
            RevealPhase::HidePending => if in_titlebar(y) {
                (
                    FullscreenRevealState {
                        phase: RevealPhase::Visible,
                        hide_timer: None,
                        last_enter: Some(now),
                        ..self
                    },
                    RevealAction::Nothing,
                )
            } else if self.hide_due(now) {
                (hidden(), RevealAction::Hide)
            } else {
                (self, RevealAction::Nothing)
            },
        }
    }

    /// The state and what the shell is told, where the pointer is at height `y` and the window
    /// with the given number is fullscreen, if one is.
    pub open spec fn updated(self, y: Float64, fullscreen: Option<u32>, now: u64) -> (
        Self,
        RevealAction,
    ) {
        match fullscreen {
            None => if self.shown() {
                (hidden(), RevealAction::Hide)
            } else {
                (self, RevealAction::Nothing)
            },
            Some(id) => if id == self.surface_id {
                self.moved(y, now)
            } else {
                let fresh = FullscreenRevealState { surface_id: id, ..hidden() };
                if self.shown() {
                    (fresh, RevealAction::Hide)
                } else {
                    fresh.moved(y, now)
                }
            },
        }
    }

    /// Whether the time to hide the title bar has come.
    fn is_hide_due(&self, now: u64) -> (r: bool)
        ensures
            r == self.hide_due(now),
    {
        match self.hide_timer {
            Some(left) => {
                let recent: bool = match self.last_enter {
                    Some(entered) => time_between(entered, now) < DEBOUNCE,
                    None => false,
                };
                !recent && time_between(left, now) >= HIDE_DELAY
            },
            None => false,
        }
    }

    /// No title bar.
    fn reset(&mut self)
        ensures
            *final(self) == hidden(),
    {
        self.phase = RevealPhase::Hidden;
        self.surface_id = 0;
        self.hide_timer = None;
        self.last_enter = None;
    }

    /// The pointer is at height `y` over the same fullscreen window.
    fn pointer_at(&mut self, y: Float64, now: u64) -> (r: RevealAction)
        ensures
            (*final(self), r) == old(self).moved(y, now),
    {
        let edge: bool = y.is_at_most(&Float64::from_bits(EDGE_THRESHOLD_BITS));
        let titlebar: bool = y.is_at_most(&Float64::from_bits(TITLEBAR_HEIGHT_BITS));
        match self.phase {
            RevealPhase::Hidden => {
                if edge {
                    self.phase = RevealPhase::Visible;
                    self.last_enter = Some(now);
                    self.hide_timer = None;
                    return RevealAction::Reveal;
                }
            },
            RevealPhase::Visible => {
                if !titlebar {
                    self.phase = RevealPhase::HidePending;
                    self.hide_timer = Some(now);
                }
            },
            RevealPhase::HidePending => {
                if titlebar {
                    self.phase = RevealPhase::Visible;
                    self.hide_timer = None;
                    self.last_enter = Some(now);
                } else if self.is_hide_due(now) {
                    self.reset();
                    return RevealAction::Hide;
                }
            },
        }
        RevealAction::Nothing
    }

    /// Updates the state for a pointer at height `y` of the output at the given time, with or
    /// without a fullscreen window; returns what the shell is told.
    pub fn update(
        &mut self,
        pointer_y: Float64,
        has_fullscreen: bool,
        fullscreen_surface_id: u32,
        now: u64,
    ) -> (r: RevealAction)
        ensures
            (*final(self), r) == old(self).updated(
                pointer_y,
                if has_fullscreen {
                    Some(fullscreen_surface_id)
                } else {
                    None
                },
                now,
            ),
    {
        if !has_fullscreen {
            if self.phase != RevealPhase::Hidden {
                self.reset();
                return RevealAction::Hide;
            }
            return RevealAction::Nothing;
        }
        if fullscreen_surface_id != self.surface_id {
            let was_visible: bool = self.phase != RevealPhase::Hidden;
            self.reset();
            self.surface_id = fullscreen_surface_id;
            if was_visible {
                return RevealAction::Hide;
            }
        }
        self.pointer_at(pointer_y, now)
    }
}

/// Updating keeps the state valid.
pub proof fn updating_keeps_the_state_valid(
    state: FullscreenRevealState,
    y: Float64,
    fullscreen: Option<u32>,
    now: u64,
)
    requires
        state.valid(),
    ensures
        ({
            let (after, action) = state.updated(y, fullscreen, now);
            after.valid()
        }),
{
}

/// The shell is told of every change, and of nothing else: it is told to show the title bar where
/// that was hidden and to hide it where that was shown.
pub proof fn the_shell_is_told_of_every_change(
    state: FullscreenRevealState,
    y: Float64,
    fullscreen: Option<u32>,
    now: u64,
)
    ensures
        ({
            let (after, action) = state.updated(y, fullscreen, now);
            &&& action == RevealAction::Reveal <==> !state.shown() && after.shown()
            &&& action == RevealAction::Hide <==> state.shown() && !after.shown()
        }),
{
}

/// Without a fullscreen window there is no title bar.
pub proof fn no_fullscreen_no_titlebar(state: FullscreenRevealState, y: Float64, now: u64)
    ensures
        ({
            let (after, action) = state.updated(y, None, now);
            !after.shown()
        }),
{
}

/// The title bar stays for a while after the pointer has left it: over the same fullscreen window
/// it is not hidden earlier.
pub proof fn the_titlebar_stays_for_the_delay(
    state: FullscreenRevealState,
    y: Float64,
    now: u64,
    left: u64,
)
    requires
        state.phase == RevealPhase::HidePending,
        state.hide_timer == Some(left),
        elapsed(left, now) < HIDE_DELAY,
    ensures
        ({
            let (after, action) = state.updated(y, Some(state.surface_id), now);
            after.shown()
        }),
{
}

/// The pointer at the title bar keeps it shown, over the same fullscreen window.
pub proof fn the_pointer_keeps_the_titlebar(state: FullscreenRevealState, y: Float64, now: u64)
    requires
        state.shown(),
        in_titlebar(y),
    ensures
        ({
            let (after, action) = state.updated(y, Some(state.surface_id), now);
            after.phase == RevealPhase::Visible && action == RevealAction::Nothing
        }),
{
}

/// A title bar that the pointer has left is hidden when the delay is over.
pub proof fn the_titlebar_is_hidden_after_the_delay(
    state: FullscreenRevealState,
    y: Float64,
    now: u64,
    left: u64,
    entered: u64,
)
    requires
        state.phase == RevealPhase::HidePending,
        state.hide_timer == Some(left),
        state.last_enter == Some(entered),
        entered <= left,
        elapsed(left, now) >= HIDE_DELAY,
        !in_titlebar(y),
    ensures
        state.updated(y, Some(state.surface_id), now) == (hidden(), RevealAction::Hide),
{
}

} // verus!
