//! What the tables of a document make of the configuration of pointers and touchpads.

use crate::config::input;
use crate::config::input::{
    ClickMethod, InputConfig, InputDeviceState, ScrollMethod, TouchpadOverride,
};
use crate::config::value;
use crate::config::value::TomlModel;
use crate::number::Float64;
use crate::text;
use vstd::prelude::*;

verus! {

/// Each key of the table `mouse` sets what it names, whatever that was before: the truth value of
/// `left_handed` and of `natural_scroll`, and the numbers of `acceleration` and `scroll_speed`
/// where they lie within -1 and 1, and 0.1 and 3.
pub proof fn each_key_of_the_mouse_is_read(
    document: Seq<(Seq<char>, TomlModel)>,
    section: Seq<(Seq<char>, TomlModel)>,
    before: InputConfig,
    b: bool,
    f: Float64,
)
    requires
        value::lookup(document, "mouse"@) == Some(TomlModel::Table(section)),
    ensures
        ({
            let after = input::with_mouse(document, before);
            &&& value::lookup(section, "left_handed"@) == Some(TomlModel::Boolean(b))
                ==> after.left_handed == Some(b)
            &&& value::lookup(section, "natural_scroll"@) == Some(TomlModel::Boolean(b)) ==> (
            after.scroll_config matches Some(scroll) && scroll.natural_scroll == Some(b))
            &&& value::lookup(section, "acceleration"@) == Some(TomlModel::Float(f)) ==> (
            after.acceleration matches Some(accel) && within(
                accel.speed,
                f,
                0xBFF0_0000_0000_0000,
                0x3FF0_0000_0000_0000,
            ) && accel.profile == (match before.acceleration {
                Some(a) => a.profile,
                None => None,
            }))
            &&& value::lookup(section, "scroll_speed"@) == Some(TomlModel::Float(f)) ==> (
            after.scroll_config matches Some(scroll) && scroll.scroll_factor matches Some(factor)
                && within(factor, f, 0x3FB9_9999_9999_999A, 0x4008_0000_0000_0000))
        }),
{
}

/// Whether a number is the one that was given, or the bound that this one is beyond.
pub open spec fn within(r: Float64, given: Float64, low: u64, high: u64) -> bool {
    &&& given.less(Float64 { bits: low }) ==> r.bits == low
    &&& (Float64 { bits: high }).less(given) ==> r.bits == high
    &&& !given.less(Float64 { bits: low }) && !(Float64 { bits: high }).less(given) ==> r == given
}

/// What the table `mouse` does not give, or gives as something else, stays as it was, and so does
/// all that has no key in it. Without such a table all stays.
pub proof fn the_mouse_keeps_what_is_not_given(
    document: Seq<(Seq<char>, TomlModel)>,
    before: InputConfig,
)
    ensures
        ({
            let after = input::with_mouse(document, before);
            &&& after.state == before.state
            &&& after.click_method == before.click_method
            &&& after.disable_while_typing == before.disable_while_typing
            &&& after.tap_config == before.tap_config
            &&& after.map_to_output == before.map_to_output
            &&& input::scroll_of(after).method == input::scroll_of(before).method
            &&& input::scroll_of(after).scroll_button == input::scroll_of(before).scroll_button
            &&& !(value::lookup(document, "mouse"@) matches Some(TomlModel::Table(_))) ==> after
                == before
            &&& value::lookup(document, "mouse"@) matches Some(TomlModel::Table(section)) ==> {
                &&& !(value::lookup(section, "left_handed"@) matches Some(TomlModel::Boolean(_)))
                    ==> after.left_handed == before.left_handed
                &&& !(value::lookup(section, "acceleration"@) matches Some(TomlModel::Float(_)))
                    ==> after.acceleration == before.acceleration
                &&& !(value::lookup(section, "natural_scroll"@) matches Some(
                    TomlModel::Boolean(_),
                )) ==> input::scroll_of(after).natural_scroll == input::scroll_of(
                    before,
                ).natural_scroll
                &&& !(value::lookup(section, "scroll_speed"@) matches Some(TomlModel::Float(_)))
                    ==> input::scroll_of(after).scroll_factor == input::scroll_of(
                    before,
                ).scroll_factor
            }
        }),
{
}

/// Each key of the table `touchpad` sets what it names, whatever that was before.
pub proof fn each_key_of_the_touchpad_is_read(
    document: Seq<(Seq<char>, TomlModel)>,
    section: Seq<(Seq<char>, TomlModel)>,
    before: InputConfig,
    b: bool,
    f: Float64,
    name: Seq<char>,
)
    requires
        value::lookup(document, "touchpad"@) == Some(TomlModel::Table(section)),
    ensures
        ({
            let after = input::with_touchpad(document, before);
            &&& value::lookup(section, "tap_to_click"@) == Some(TomlModel::Boolean(b)) ==> (
            after.tap_config matches Some(tap) && tap.enabled == b)
            &&& value::lookup(section, "tap_drag"@) == Some(TomlModel::Boolean(b)) ==> (
            after.tap_config matches Some(tap) && tap.drag == b)
            &&& value::lookup(section, "natural_scroll"@) == Some(TomlModel::Boolean(b)) ==> (
            after.scroll_config matches Some(scroll) && scroll.natural_scroll == Some(b))
            &&& value::lookup(section, "two_finger_scroll"@) == Some(TomlModel::Boolean(b)) ==> (
            after.scroll_config matches Some(scroll) && scroll.method == Some(
                if b {
                    ScrollMethod::TwoFinger
                } else {
                    ScrollMethod::NoScroll
                },
            ))
            &&& value::lookup(section, "disable_while_typing"@) == Some(TomlModel::Boolean(b))
                ==> after.disable_while_typing == Some(b)
            &&& value::lookup(section, "acceleration"@) == Some(TomlModel::Float(f)) ==> (
            after.acceleration matches Some(accel) && within(
                accel.speed,
                f,
                0xBFF0_0000_0000_0000,
                0x3FF0_0000_0000_0000,
            ) && accel.profile == (match before.acceleration {
                Some(a) => a.profile,
                None => None,
            }))
            &&& value::lookup(section, "click_method"@) == Some(TomlModel::Text(name)) ==> {
                &&& name == "clickfinger"@ ==> after.click_method == Some(ClickMethod::Clickfinger)
                &&& name == "areas"@ || name == "buttonareas"@ || name == "button_areas"@
                    ==> after.click_method == Some(ClickMethod::ButtonAreas)
                &&& name != "clickfinger"@ && name != "areas"@ && name != "buttonareas"@ && name
                    != "button_areas"@ ==> after.click_method is None
            }
        }),
{
    reveal_strlit("clickfinger");
    reveal_strlit("areas");
    reveal_strlit("buttonareas");
    reveal_strlit("button_areas");
    assert("clickfinger"@[0] != "areas"@[0]);
    assert("clickfinger"@[0] != "buttonareas"@[0]);
    assert("clickfinger"@[0] != "button_areas"@[0]);
}

/// What the table `touchpad` does not give, or gives as something else, stays as it was, and so
/// does all that has no key in it. Without such a table all stays.
pub proof fn the_touchpad_keeps_what_is_not_given(
    document: Seq<(Seq<char>, TomlModel)>,
    before: InputConfig,
)
    ensures
        ({
            let after = input::with_touchpad(document, before);
            &&& after.state == before.state
            &&& after.left_handed == before.left_handed
            &&& after.map_to_output == before.map_to_output
            &&& input::scroll_of(after).scroll_factor == input::scroll_of(before).scroll_factor
            &&& input::scroll_of(after).scroll_button == input::scroll_of(before).scroll_button
            &&& before.tap_config matches Some(old) ==> (after.tap_config matches Some(new)
                && new.button_map == old.button_map && new.drag_lock == old.drag_lock)
            &&& !(value::lookup(document, "touchpad"@) matches Some(TomlModel::Table(_))) ==> after
                == before
            &&& value::lookup(document, "touchpad"@) matches Some(TomlModel::Table(section)) ==> {
                &&& !(value::lookup(section, "disable_while_typing"@) matches Some(
                    TomlModel::Boolean(_),
                )) ==> after.disable_while_typing == before.disable_while_typing
                &&& !(value::lookup(section, "acceleration"@) matches Some(TomlModel::Float(_)))
                    ==> after.acceleration == before.acceleration
                &&& !(value::lookup(section, "click_method"@) matches Some(TomlModel::Text(_)))
                    ==> after.click_method == before.click_method
                &&& !(value::lookup(section, "natural_scroll"@) matches Some(
                    TomlModel::Boolean(_),
                )) ==> input::scroll_of(after).natural_scroll == input::scroll_of(
                    before,
                ).natural_scroll
                &&& !(value::lookup(section, "two_finger_scroll"@) matches Some(
                    TomlModel::Boolean(_),
                )) ==> input::scroll_of(after).method == input::scroll_of(before).method
                &&& !(value::lookup(section, "tap_to_click"@) matches Some(TomlModel::Boolean(_)))
                    ==> (before.tap_config matches Some(old) ==> (after.tap_config matches Some(new)
                    && new.enabled == old.enabled))
                &&& !(value::lookup(section, "tap_drag"@) matches Some(TomlModel::Boolean(_))) ==> (
                before.tap_config matches Some(old) ==> (after.tap_config matches Some(new)
                    && new.drag == old.drag))
                &&& !(value::lookup(section, "tap_to_click"@) matches Some(TomlModel::Boolean(_)))
                    && !(value::lookup(section, "tap_drag"@) matches Some(TomlModel::Boolean(_)))
                    ==> after.tap_config == before.tap_config
            }
        }),
{
}

/// Taps that are first configured are on, drag, and do not lock, but for what is given.
pub proof fn new_taps_are_on_and_drag(
    document: Seq<(Seq<char>, TomlModel)>,
    section: Seq<(Seq<char>, TomlModel)>,
    before: InputConfig,
    b: bool,
)
    requires
        value::lookup(document, "touchpad"@) == Some(TomlModel::Table(section)),
        before.tap_config is None,
    ensures
        ({
            let after = input::with_touchpad(document, before).tap_config;
            &&& value::lookup(section, "tap_to_click"@) == Some(TomlModel::Boolean(b))
                && value::lookup(section, "tap_drag"@) is None ==> (after matches Some(tap)
                && tap.enabled == b && tap.drag && !tap.drag_lock && tap.button_map is None)
            &&& value::lookup(section, "tap_drag"@) == Some(TomlModel::Boolean(b)) && value::lookup(
                section,
                "tap_to_click"@,
            ) is None ==> (after matches Some(tap) && tap.enabled && tap.drag == b && !tap.drag_lock
                && tap.button_map is None)
        }),
{
}

/// A device has the configuration of the first entry with its name, and none where no entry has
/// it.
pub proof fn devices_are_found_by_name(devices: Seq<(String, InputConfig)>, name: Seq<char>)
    ensures
        match input::device_named(devices, name) {
            Some(config) => exists|i: int|
                0 <= i < devices.len() && (#[trigger] devices[i]).0@ == name && devices[i].1
                    == config && forall|j: int| 0 <= j < i ==> (#[trigger] devices[j]).0@ != name,
            None => forall|i: int| 0 <= i < devices.len() ==> (#[trigger] devices[i]).0@ != name,
        },
    decreases devices.len(),
{
    if devices.len() > 0 && devices[0].0@ != name {
        let rest = devices.skip(1);
        devices_are_found_by_name(rest, name);
        match input::device_named(devices, name) {
            Some(config) => {
                let k = choose|k: int|
                    0 <= k < rest.len() && (#[trigger] rest[k]).0@ == name && rest[k].1 == config
                        && forall|j: int| 0 <= j < k ==> (#[trigger] rest[j]).0@ != name;
                assert(devices[k + 1] == rest[k]);
                assert forall|j: int| 0 <= j < k + 1 implies (#[trigger] devices[j]).0@ != name by {
                    if j > 0 {
                        assert(rest[j - 1] == devices[j]);
                    }
                }
            },
            None => {
                assert forall|i: int| 0 <= i < devices.len() implies (#[trigger] devices[i]).0@
                    != name by {
                    if i > 0 {
                        assert(rest[i - 1] == devices[i]);
                    }
                }
            },
        }
    } else if devices.len() > 0 {
        assert(devices[0].0@ == name);
    }
}

/// Where touchpads are forced off, every touchpad is off, with the rest of its own configuration;
/// otherwise, and for other devices, its own configuration holds.
pub proof fn touchpads_can_be_forced_off(
    devices: Seq<(String, InputConfig)>,
    name: Seq<char>,
    touchpad: bool,
    touchpads: TouchpadOverride,
)
    ensures
        ({
            let own = input::device_named(devices, name);
            let used = input::device_config(devices, name, touchpad, touchpads);
            &&& touchpad && touchpads is ForceDisable ==> (used matches Some(u) && u.state
                == InputDeviceState::Disabled && match own {
                Some(o) => u.acceleration == o.acceleration && u.click_method == o.click_method
                    && u.disable_while_typing == o.disable_while_typing && u.left_handed
                    == o.left_handed && u.scroll_config == o.scroll_config && u.tap_config
                    == o.tap_config && u.map_to_output == o.map_to_output,
                None => u.acceleration is None && u.scroll_config is None && u.tap_config is None
                    && u.click_method is None && u.disable_while_typing is None && u.left_handed
                    is None && u.map_to_output is None,
            })
            &&& !touchpad || touchpads is NoOverride ==> used == own
        }),
{
}

/// A device scrolls by its own factor where it has one, else by the default one, else by 1.
pub proof fn own_factors_come_first(own: InputConfig, default: InputConfig, f: Float64, g: Float64)
    ensures
        (own.scroll_config matches Some(s) && s.scroll_factor == Some(f)) ==> input::factor_of(
            Some(own),
            default,
        ) == f,
        (own.scroll_config matches Some(s) ==> s.scroll_factor is None) && (
        default.scroll_config matches Some(s) && s.scroll_factor == Some(g)) ==> input::factor_of(
            Some(own),
            default,
        ) == g && input::factor_of(None, default) == g,
        (own.scroll_config matches Some(s) ==> s.scroll_factor is None) && (
        default.scroll_config matches Some(s) ==> s.scroll_factor is None) ==> input::factor_of(
            Some(own),
            default,
        ).bits == 0x3FF0_0000_0000_0000,
{
}

/// A device is mapped to its own output where it has one, else to the default one.
pub proof fn own_outputs_come_first(own: InputConfig, default: InputConfig)
    ensures
        own.map_to_output matches Some(o) ==> input::output_of(Some(own), default) == Some(o@),
        own.map_to_output is None && default.map_to_output is Some ==> input::output_of(
            Some(own),
            default,
        ) == Some(default.map_to_output->0@),
        own.map_to_output is None && default.map_to_output is None ==> input::output_of(
            Some(own),
            default,
        ) is None,
        input::output_of(None, default) == text::optional_view(default.map_to_output),
{
}

/// Configurations that say the same agree in every part.
pub proof fn same_configurations_agree(a: InputConfig, b: InputConfig)
    requires
        a.same(b),
    ensures
        a.state == b.state,
        a.click_method == b.click_method,
        a.disable_while_typing == b.disable_while_typing,
        a.left_handed == b.left_handed,
        a.tap_config == b.tap_config,
        a.map_to_output is Some == b.map_to_output is Some,
        a.map_to_output matches Some(x) ==> x@ == b.map_to_output->0@,
        a.acceleration is Some == b.acceleration is Some,
        a.acceleration matches Some(x) ==> x.profile == b.acceleration->0.profile && x.speed.same(
            b.acceleration->0.speed,
        ),
        a.scroll_config is Some == b.scroll_config is Some,
        a.scroll_config matches Some(x) ==> {
            let y = b.scroll_config->0;
            &&& x.method == y.method
            &&& x.natural_scroll == y.natural_scroll
            &&& x.scroll_button == y.scroll_button
            &&& x.scroll_factor is Some == y.scroll_factor is Some
            &&& x.scroll_factor matches Some(f) ==> f.same(y.scroll_factor->0)
        },
{
}

/// Configurations of which every part is the same, and every number is one, say the same.
pub proof fn a_configuration_is_the_same_as_itself(a: InputConfig)
    requires
        a.acceleration matches Some(x) ==> !x.speed.is_nan(),
        a.scroll_config matches Some(x) ==> (x.scroll_factor matches Some(f) ==> !f.is_nan()),
    ensures
        a.same(a),
{
}

} // verus!
