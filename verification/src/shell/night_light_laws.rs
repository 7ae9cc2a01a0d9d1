//! Which colours the screen shows, and when.

use crate::shell::night_light::{NightLightSchedule, NightLightState};
use crate::shell::night_light_schedule;
use crate::shell::night_light_schedule::{Location, SunTimes};
use vstd::prelude::*;

verus! {

/// While night light is on, the screen shows the temperature that the user has chosen, from 1000
/// to 6500 kelvin, and beyond these the nearer of the two; below 6500 it is tinted by just that.
pub proof fn chosen_temperatures_are_shown(state: NightLightState, now: u64)
    requires
        state.enabled,
    ensures
        1000 <= state.target_temperature_k <= 6500 ==> state.shown_at(now).current_temperature_k
            == state.target_temperature_k,
        1000 <= state.target_temperature_k < 6500 ==> state.tint() == Some(
            state.target_temperature_k,
        ),
        state.target_temperature_k < 1000 ==> state.shown_at(now).current_temperature_k == 1000
            && state.tint() == Some(1000u16),
        state.target_temperature_k >= 6500 ==> state.shown_at(now).current_temperature_k == 6500
            && state.tint() is None,
{
}

/// While night light is off, the screen shows 6500 kelvin and is not tinted.
pub proof fn colours_are_neutral_while_it_is_off(state: NightLightState, now: u64)
    requires
        !state.enabled,
    ensures
        state.shown_at(now).current_temperature_k == 6500,
        state.tint() is None,
{
}

/// Bringing colours to the screen changes nothing but what is shown and since when.
pub proof fn showing_keeps_what_was_chosen(state: NightLightState, now: u64)
    ensures
        state.shown_at(now).enabled == state.enabled,
        state.shown_at(now).manual_state == state.manual_state,
        state.shown_at(now).target_temperature_k == state.target_temperature_k,
        state.shown_at(now).schedule == state.schedule,
        state.shown_at(now).location == state.location,
        state.shown_at(now).last_apply == Some(now),
        state.shown_at(now).tint() == state.tint(),
{
}

/// A warmer choice never shows colder colours.
pub proof fn warmer_choices_show_warmer_colours(a: NightLightState, b: NightLightState, now: u64)
    requires
        a.enabled && b.enabled,
        a.target_temperature_k <= b.target_temperature_k,
    ensures
        a.shown_at(now).current_temperature_k <= b.shown_at(now).current_temperature_k,
{
}

/// A window within a day holds the minutes from its start to before its end; one past midnight
/// those from its start on and those before its end; one that ends where it begins all.
pub proof fn windows_hold_the_minutes_between(now: int, start: int, end: int)
    requires
        0 <= now < 1440,
        0 <= start < 1440,
        0 <= end < 1440,
    ensures
        start < end ==> (night_light_schedule::within(now, start, end) <==> start <= now && now
            < end),
        start > end ==> (night_light_schedule::within(now, start, end) <==> now >= start || now
            < end),
        start == end ==> night_light_schedule::within(now, start, end),
{
}

/// A schedule of the user's own is on in its window, whatever the user chose and wherever they
/// are.
pub proof fn own_schedules_follow_the_clock(
    start_min: u32,
    end_min: u32,
    manual_state: bool,
    now: int,
    location: Location,
    sun: Option<SunTimes>,
)
    requires
        0 <= now < 1440,
        start_min < 1440,
        end_min < 1440,
    ensures
        ({
            let on = night_light_schedule::on(
                NightLightSchedule::Custom { start_min, end_min },
                manual_state,
                now,
                location,
                sun,
            );
            &&& start_min < end_min ==> on == (start_min <= now < end_min)
            &&& start_min > end_min ==> on == (now >= start_min || now < end_min)
        }),
{
}

/// A schedule that follows the sun is on from sunset to sunrise where the place is known, which
/// takes two coordinates that are not zero, and else where the user says so.
pub proof fn sun_schedules_follow_the_sun(
    manual_state: bool,
    now: int,
    location: Location,
    times: SunTimes,
)
    requires
        0 <= now < 1440,
        times.sunrise < times.sunset < 1440,
    ensures
        ({
            let on = night_light_schedule::on(
                NightLightSchedule::SunsetSunrise,
                manual_state,
                now,
                location,
                Some(times),
            );
            let known = location.latitude.bits % 0x8000_0000_0000_0000 != 0
                && location.longitude.bits % 0x8000_0000_0000_0000 != 0;
            &&& known ==> on == (now >= times.sunset || now < times.sunrise)
            &&& !known ==> on == manual_state
        }),
{
    crate::number::numbers_are_ordered_by_sign_and_magnitude(
        crate::number::Float64 { bits: 0 },
        crate::number::Float64 { bits: 0 },
    );
}

/// The minute that stands for a time of the day is that many minutes after midnight.
pub proof fn minutes_are_counted_from_midnight(hour: u32, minute: u32, epoch: (u32, u32))
    requires
        hour < 24,
        minute < 60,
    ensures
        night_light_schedule::standing_minute(Some((hour, minute)), epoch) / 60 == hour,
        night_light_schedule::standing_minute(Some((hour, minute)), epoch) % 60 == minute,
        night_light_schedule::standing_minute(None, (hour, minute))
            == night_light_schedule::standing_minute(Some((hour, minute)), epoch),
{
}

} // verus!
