//! When night light is on.

use crate::number::Float64;
use crate::shell::night_light::NightLightSchedule;
use chrono::{TimeZone, Timelike};
use vstd::prelude::*;

verus! {

/// The minutes of a day.
pub const DAY_MINUTES: u32 = 1440;

/// A place on the earth, in degrees.
#[derive(Clone, Copy, Debug, PartialEq, Eq, Structural)]
pub struct Location {
    pub latitude: Float64,
    pub longitude: Float64,
}

impl Default for Location {
    /// No place: both coordinates are zero.
    fn default() -> (r: Self)
        ensures
            r == (Location { latitude: Float64 { bits: 0 }, longitude: Float64 { bits: 0 } }),
    {
        Location { latitude: Float64 { bits: 0 }, longitude: Float64 { bits: 0 } }
    }
}

impl Location {
    /// Whether this is a place: a coordinate of zero stands for none.
    pub open spec fn set(self) -> bool {
        !self.latitude.same(Float64 { bits: 0 }) && !self.longitude.same(Float64 { bits: 0 })
    }

    /// Whether this is a place: a coordinate of zero stands for none.
    pub fn is_set(&self) -> (r: bool)
        ensures
            r == self.set(),
    {
        let zero: Float64 = Float64::from_bits(0);
        !self.latitude.equals(&zero) && !self.longitude.equals(&zero)
    }
}

/// Whether a minute of the day is in a window that begins at `start` and ends before `end`, and
/// may go past midnight. A window that ends where it begins is the whole day.
pub open spec fn within(now: int, start: int, end: int) -> bool {
    let n = now % 1440;
    let s = start % 1440;
    let e = end % 1440;
    if s < e {
        s <= n < e
    } else {
        s <= n || n < e || s == e
    }
}

/// Whether a minute of the day is in a window.
pub fn in_window(now: u32, start: u32, end: u32) -> (r: bool)
    ensures
        r == within(now as int, start as int, end as int),
{
    let s: u32 = start % DAY_MINUTES;
    let e: u32 = end % DAY_MINUTES;
    let n: u32 = now % DAY_MINUTES;
    if s == e {
        return true;
    }
    if s < e {
        n >= s && n < e
    } else {
        n >= s || n < e
    }
}

/// The minute of the day at a time of the day.
pub fn minutes_of_day(hour: u32, minute: u32) -> (r: u32)
    requires
        hour < 24,
        minute < 60,
    ensures
        r == 60 * hour + minute,
        r < DAY_MINUTES,
{
    hour * 60 + minute
}

/// When the sun rises and sets, as minutes of the day.
#[derive(Clone, Copy, Debug, PartialEq, Eq, Structural)]
pub struct SunTimes {
    pub sunrise: u32,
    pub sunset: u32,
}

/// `chrono::TimeZone::timestamp_opt` of the chrono crate for UTC, followed by
/// `chrono::DateTime::with_timezone` for the local time zone: the hour and minute of a moment,
/// given in seconds since 1970. Which they are depends on the time zone of the machine and is left
/// open. A moment of the years 1 to 9999 has a time of the day.
#[verifier::external_body]
fn local_time(unix: i64) -> (r: Option<(u32, u32)>)
    ensures
        match r {
            Some((hour, minute)) => hour < 24 && minute < 60,
            None => unix < -62_135_596_800 || unix > 253_402_300_799,
        },
{
    let utc = chrono::Utc.timestamp_opt(unix, 0).single()?;
    let time = utc.with_timezone(&chrono::Local).time();
    Some((time.hour(), time.minute()))
}

/// The minute of the day that stands for a moment: that of the moment, or that of the beginning
/// of 1970 where the moment is out of reach.
pub fn minute_or_epoch(at: Option<(u32, u32)>, epoch: (u32, u32)) -> (r: u32)
    requires
        at matches Some(t) ==> t.0 < 24 && t.1 < 60,
        epoch.0 < 24,
        epoch.1 < 60,
    ensures
        r == standing_minute(at, epoch),
        r < DAY_MINUTES,
{
    match at {
        Some((hour, minute)) => minutes_of_day(hour, minute),
        None => minutes_of_day(epoch.0, epoch.1),
    }
}

/// Whether the machine may give `at` as the local hour and minute of a moment.
pub closed spec fn given(unix: i64, at: Option<(u32, u32)>) -> bool {
    call_ensures(local_time, (unix,), at)
}

/// The minute of the day that stands for a moment with the given local time, where that of the
/// beginning of 1970 is `epoch`.
pub open spec fn standing_minute(at: Option<(u32, u32)>, epoch: (u32, u32)) -> int {
    match at {
        Some((hour, minute)) => 60 * hour + minute,
        None => 60 * epoch.0 + epoch.1,
    }
}

/// The minute of the day of a moment, given in seconds since 1970, in the local time zone of the
/// machine.
pub fn unix_to_local_minute(unix: i64) -> (r: u32)
    ensures
        exists|at: Option<(u32, u32)>, epoch: (u32, u32)| #[trigger]
            given(unix, at) && #[trigger] given(0i64, Some(epoch)) && r == standing_minute(
                at,
                epoch,
            ),
        r < DAY_MINUTES,
{
    match local_time(0) {
        Some(epoch) => {
            let at: Option<(u32, u32)> = local_time(unix);
            assert(given(unix, at) && given(0i64, Some(epoch)));
            minute_or_epoch(at, epoch)
        },
        None => 0,
    }
}

/// Whether night light is on: the user says so where there is no schedule, or where the schedule
/// follows the sun and the place is not known; else the time is in the window of the schedule, or
/// between sunset and sunrise.
pub open spec fn on(
    schedule: NightLightSchedule,
    manual_state: bool,
    now: int,
    location: Location,
    sun: Option<SunTimes>,
) -> bool {
    match schedule {
        NightLightSchedule::Manual => manual_state,
        NightLightSchedule::Custom { start_min, end_min } => within(
            now,
            start_min as int,
            end_min as int,
        ),
        NightLightSchedule::SunsetSunrise => if location.set() {
            sun matches Some(times) && within(now, times.sunset as int, times.sunrise as int)
        } else {
            manual_state
        },
    }
}

/// Whether the schedule goes by the sun, so that its times are needed.
pub fn needs_sun(schedule: NightLightSchedule, location: Location) -> (r: bool)
    ensures
        r == (schedule == NightLightSchedule::SunsetSunrise && location.set()),
{
    match schedule {
        NightLightSchedule::SunsetSunrise => location.is_set(),
        _ => false,
    }
}

/// Whether night light is on at a minute of the day. `sun` is needed where the schedule goes by
/// it.
pub fn evaluate(
    schedule: NightLightSchedule,
    manual_state: bool,
    now: u32,
    location: Location,
    sun: Option<SunTimes>,
) -> (r: bool)
    requires
        schedule == NightLightSchedule::SunsetSunrise && location.set() ==> sun is Some,
    ensures
        r == on(schedule, manual_state, now as int, location, sun),
{
    match schedule {
        NightLightSchedule::Manual => manual_state,
        NightLightSchedule::Custom { start_min, end_min } => in_window(now, start_min, end_min),
        NightLightSchedule::SunsetSunrise => {
            if !location.is_set() {
                return manual_state;
            }
            match sun {
                Some(times) => in_window(now, times.sunset, times.sunrise),
                None => manual_state,
            }
        },
    }
}

/// A window and the one from its end to its beginning share no time and leave none out.
pub proof fn a_window_and_its_rest_make_a_day(now: int, start: int, end: int)
    requires
        start % 1440 != end % 1440,
    ensures
        within(now, start, end) != within(now, end, start),
{
}

/// A window repeats every day.
pub proof fn a_window_repeats_every_day(now: int, start: int, end: int)
    ensures
        within(now + 1440, start, end) == within(now, start, end),
        within(now, start + 1440, end) == within(now, start, end),
        within(now, start, end + 1440) == within(now, start, end),
{
}

/// A window begins with its start and ends before its end, unless it is the whole day.
pub proof fn a_window_holds_its_start_but_not_its_end(start: int, end: int)
    ensures
        within(start, start, end),
        within(end, start, end) == (start % 1440 == end % 1440),
{
}

/// A manual schedule never changes what the user chose, whatever the time and the place.
pub proof fn a_manual_schedule_follows_the_user(
    manual_state: bool,
    now: int,
    location: Location,
    sun: Option<SunTimes>,
)
    ensures
        on(NightLightSchedule::Manual, manual_state, now, location, sun) == manual_state,
{
}

} // verus!
