//! Night light: warmer colours of the screen.

use crate::shell::night_light_schedule;
use crate::shell::night_light_schedule::{evaluate, Location, SunTimes};
use vstd::prelude::*;

verus! {

/// The seconds between two looks at the schedule.
pub const SCHEDULE_TICK_S: u64 = 60;

/// The lowest colour temperature, in kelvin.
pub const MIN_TEMPERATURE_K: u16 = 1000;

/// The highest colour temperature, in kelvin.
pub const MAX_TEMPERATURE_K: u16 = 6500;

/// The colour temperature that leaves colours as they are.
pub const NEUTRAL_TEMPERATURE_K: u16 = 6500;

/// The colour temperature of night light, until the user chooses another.
pub const DEFAULT_WARM_TEMPERATURE_K: u16 = 3400;

/// When night light is on.
#[derive(Clone, Copy, Debug, PartialEq, Eq, Structural)]
pub enum NightLightSchedule {
    /// When the user says so.
    Manual,
    /// From sunset to sunrise.
    SunsetSunrise,
    /// From one minute of the day to another.
    Custom { start_min: u32, end_min: u32 },
}

impl Default for NightLightSchedule {
    /// When the user says so.
    fn default() -> (r: Self)
        ensures
            r == NightLightSchedule::Manual,
    {
        NightLightSchedule::Manual
    }
}

/// The state of night light.
#[derive(Clone, Copy, Debug, PartialEq, Eq, Structural)]
pub struct NightLightState {
    /// Whether night light is on.
    pub enabled: bool,
    /// Whether the user turned it on.
    pub manual_state: bool,
    /// The colour temperature while it is on.
    pub target_temperature_k: u16,
    /// The colour temperature that the screen shows.
    pub current_temperature_k: u16,
    pub schedule: NightLightSchedule,
    /// Where the user is.
    pub location: Location,
    /// When the colour temperature was last changed, in nanoseconds.
    pub last_apply: Option<u64>,
}

impl Default for NightLightState {
    /// Off, with a manual schedule.
    fn default() -> (r: Self)
        ensures
            !r.enabled,
            !r.manual_state,
            r.target_temperature_k == DEFAULT_WARM_TEMPERATURE_K,
            r.current_temperature_k == NEUTRAL_TEMPERATURE_K,
            r.schedule == NightLightSchedule::Manual,
            !r.location.set(),
            r.last_apply is None,
    {
        NightLightState {
            enabled: false,
            manual_state: false,
            target_temperature_k: DEFAULT_WARM_TEMPERATURE_K,
            current_temperature_k: NEUTRAL_TEMPERATURE_K,
            schedule: NightLightSchedule::Manual,
            location: Location::default(),
            last_apply: None,
        }
    }
}

impl NightLightState {
    /// The colour temperature that the screen should show: the one that was chosen, within its
    /// bounds, while night light is on, and else the neutral one.
    pub open spec fn effective(self) -> u16 {
        if !self.enabled {
            NEUTRAL_TEMPERATURE_K
        } else if self.target_temperature_k < MIN_TEMPERATURE_K {
            MIN_TEMPERATURE_K
        } else if self.target_temperature_k > MAX_TEMPERATURE_K {
            MAX_TEMPERATURE_K
        } else {
            self.target_temperature_k
        }
    }

    /// The colour temperature that the screen should show.
    pub fn effective_temperature_k(&self) -> (r: u16)
        ensures
            r == self.effective(),
    {
        if self.enabled {
            if self.target_temperature_k < MIN_TEMPERATURE_K {
                MIN_TEMPERATURE_K
            } else if self.target_temperature_k > MAX_TEMPERATURE_K {
                MAX_TEMPERATURE_K
            } else {
                self.target_temperature_k
            }
        } else {
            NEUTRAL_TEMPERATURE_K
        }
    }

    /// The colour temperature by which the screen is tinted, if it is.
    pub open spec fn tint(self) -> Option<u16> {
        if self.effective() == NEUTRAL_TEMPERATURE_K {
            None
        } else {
            Some(self.effective())
        }
    }

    /// The state after the screen has got the colour temperature that it should show.
    pub open spec fn shown_at(self, now: u64) -> Self {
        NightLightState {
            current_temperature_k: self.effective(),
            last_apply: Some(now),
            ..self
        }
    }
}

/// Brings the colour temperature to the screen at the given time; returns that by which the
/// screen is tinted, `None` where it is not.
pub fn apply_to_backend(state: &mut NightLightState, now: u64) -> (r: Option<u16>)
    ensures
        r == old(state).tint(),
        *final(state) == old(state).shown_at(now),
{
    let temperature: u16 = state.effective_temperature_k();
    let neutral: bool = !state.enabled || temperature == NEUTRAL_TEMPERATURE_K;
    state.current_temperature_k = temperature;
    state.last_apply = Some(now);
    if neutral {
        None
    } else {
        Some(temperature)
    }
}

/// What a look at the schedule asks for.
#[derive(Clone, Copy, Debug, PartialEq, Eq, Structural)]
pub enum ScheduleOutcome {
    /// Nothing has changed.
    Unchanged,
    /// The screen is tinted by the given colour temperature, or not at all.
    Tint(Option<u16>),
}

/// Looks at the schedule at a minute of the day, and turns night light on or off where it says
/// so.
pub fn schedule_tick(state: &mut NightLightState, minute: u32, sun: Option<SunTimes>, now: u64) -> (r:
    ScheduleOutcome)
    requires
        old(state).schedule == NightLightSchedule::SunsetSunrise && old(state).location.set()
            ==> sun is Some,
    ensures
        ({
            let enabled = night_light_schedule::on(
                old(state).schedule,
                old(state).manual_state,
                minute as int,
                old(state).location,
                sun,
            );
            let switched = NightLightState { enabled, ..*old(state) };
            if enabled == old(state).enabled {
                r == ScheduleOutcome::Unchanged && *final(state) == *old(state)
            } else {
                r == ScheduleOutcome::Tint(switched.tint()) && *final(state) == switched.shown_at(
                    now,
                )
            }
        }),
        final(state).enabled && !old(state).enabled && MIN_TEMPERATURE_K
            <= old(state).target_temperature_k < NEUTRAL_TEMPERATURE_K ==> r
            == ScheduleOutcome::Tint(Some(old(state).target_temperature_k))
            && final(state).current_temperature_k == old(state).target_temperature_k,
        !final(state).enabled && old(state).enabled ==> r == ScheduleOutcome::Tint(None)
            && final(state).current_temperature_k == NEUTRAL_TEMPERATURE_K,
{
    let target: bool = evaluate(state.schedule, state.manual_state, minute, state.location, sun);
    if target == state.enabled {
        return ScheduleOutcome::Unchanged;
    }
    state.enabled = target;
    ScheduleOutcome::Tint(apply_to_backend(state, now))
}

/// The screen never shows a colour temperature outside the bounds.
pub proof fn the_temperature_is_within_bounds(state: NightLightState, now: u64)
    ensures
        MIN_TEMPERATURE_K <= state.shown_at(now).current_temperature_k <= MAX_TEMPERATURE_K,
        state.tint() matches Some(t) ==> MIN_TEMPERATURE_K <= t < NEUTRAL_TEMPERATURE_K,
{
}

/// Without night light the colours stay as they are.
pub proof fn disabled_means_no_tint(state: NightLightState)
    requires
        !state.enabled,
    ensures
        state.tint() is None,
        state.effective() == NEUTRAL_TEMPERATURE_K,
{
}

} // verus!
