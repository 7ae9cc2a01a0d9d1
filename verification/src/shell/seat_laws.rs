//! What a seat can do with its devices, and which presses make a double click.

use crate::shell::seats;
use crate::shell::seats::{
    Capabilities, DeviceCapability, DeviceModel, DoubleClickState, SeatOutputs,
};
use vstd::prelude::*;

verus! {

/// A seat can do what one of its devices can, and nothing else.
pub proof fn a_seat_can_do_what_its_devices_can(devices: Seq<DeviceModel>)
    ensures
        seats::combined(devices).keyboard <==> exists|i: int|
            0 <= i < devices.len() && (#[trigger] devices[i]).capabilities.keyboard,
        seats::combined(devices).pointer <==> exists|i: int|
            0 <= i < devices.len() && (#[trigger] devices[i]).capabilities.pointer,
        seats::combined(devices).tablet_tool <==> exists|i: int|
            0 <= i < devices.len() && (#[trigger] devices[i]).capabilities.tablet_tool,
    decreases devices.len(),
{
    if devices.len() > 0 {
        let init = devices.drop_last();
        let n = devices.len() - 1;
        a_seat_can_do_what_its_devices_can(init);
        assert forall|i: int| 0 <= i < n implies #[trigger] devices[i] == init[i] by {}
        if seats::combined(init).keyboard {
            let i = choose|i: int|
                0 <= i < init.len() && (#[trigger] init[i]).capabilities.keyboard;
            assert(devices[i].capabilities.keyboard);
        }
        if seats::combined(init).pointer {
            let i = choose|i: int|
                0 <= i < init.len() && (#[trigger] init[i]).capabilities.pointer;
            assert(devices[i].capabilities.pointer);
        }
        if seats::combined(init).tablet_tool {
            let i = choose|i: int|
                0 <= i < init.len() && (#[trigger] init[i]).capabilities.tablet_tool;
            assert(devices[i].capabilities.tablet_tool);
        }
        assert(devices[n] == devices.last());
    }
}

/// What one thing can do and another cannot is listed, each once, and nothing else.
pub proof fn what_is_new_is_listed(own: Capabilities, other: Capabilities)
    ensures
        ({
            let list = own.without(other).listed();
            &&& list.contains(DeviceCapability::Keyboard) <==> own.keyboard && !other.keyboard
            &&& list.contains(DeviceCapability::Pointer) <==> own.pointer && !other.pointer
            &&& list.contains(DeviceCapability::TabletTool) <==> own.tablet_tool
                && !other.tablet_tool
            &&& list.no_duplicates()
        }),
{
    let c = own.without(other);
    let list = c.listed();
    let k = if c.keyboard {
        1int
    } else {
        0
    };
    let p = if c.pointer {
        1int
    } else {
        0
    };
    if c.keyboard {
        assert(list[0] == DeviceCapability::Keyboard);
    }
    if c.pointer {
        assert(list[k] == DeviceCapability::Pointer);
    }
    if c.tablet_tool {
        assert(list[k + p] == DeviceCapability::TabletTool);
    }
}

/// A device is found by its name, the first one with it.
pub proof fn devices_are_found_by_name(devices: Seq<DeviceModel>, id: Seq<char>)
    ensures
        match seats::device_position(devices, id) {
            Some(i) => 0 <= i < devices.len() && devices[i].id == id && forall|j: int|
                0 <= j < i ==> (#[trigger] devices[j]).id != id,
            None => forall|j: int| 0 <= j < devices.len() ==> (#[trigger] devices[j]).id != id,
        },
    decreases devices.len(),
{
    if devices.len() > 0 && devices[0].id != id {
        let rest = devices.skip(1);
        devices_are_found_by_name(rest, id);
        assert forall|j: int| 0 < j < devices.len() implies #[trigger] devices[j] == rest[j
            - 1] by {}
    }
}

/// A device that is added is there with what it can do; the others stay as they are, and none is
/// there twice by being added again.
pub proof fn added_devices_are_there(devices: Seq<DeviceModel>, device: DeviceModel, k: int)
    ensures
        ({
            let after = seats::with_device(devices, device);
            &&& after.contains(device)
            &&& seats::device_position(devices, device.id) is Some ==> after.len() == devices.len()
            &&& seats::device_position(devices, device.id) is None ==> after.len() == devices.len()
                + 1
            &&& 0 <= k < devices.len() && devices[k].id != device.id ==> after[k] == devices[k]
        }),
{
    devices_are_found_by_name(devices, device.id);
    let after = seats::with_device(devices, device);
    match seats::device_position(devices, device.id) {
        Some(i) => {
            assert(after[i] == device);
        },
        None => {
            assert(after[devices.len() as int] == device);
        },
    }
}

/// A keyboard is found by its name, the first one with it.
pub proof fn keyboards_are_found_by_name(names: Seq<String>, id: Seq<char>)
    ensures
        match seats::name_position(names, id) {
            Some(i) => 0 <= i < names.len() && names[i]@ == id && forall|j: int|
                0 <= j < i ==> (#[trigger] names[j])@ != id,
            None => forall|j: int| 0 <= j < names.len() ==> (#[trigger] names[j])@ != id,
        },
    decreases names.len(),
{
    if names.len() > 0 && names[0]@ != id {
        let rest = names.skip(1);
        keyboards_are_found_by_name(rest, id);
        assert forall|j: int| 0 < j < names.len() implies #[trigger] names[j] == rest[j - 1] by {}
    }
}

/// Two presses make a double click where they are of the same button on the same surface within
/// 300 milliseconds, and not otherwise; the clock may start again between them.
pub proof fn two_presses_make_a_double_click(
    state: DoubleClickState,
    first_time: u32,
    first_button: u32,
    first_target: u64,
    time: u32,
    button: u32,
    target: u64,
)
    requires
        !state.completes(first_time, first_button, first_target),
    ensures
        ({
            let after = state.pressed(first_time, first_button, first_target);
            let double = after.completes(time, button, target);
            &&& button != first_button || target != first_target ==> !double
            &&& button == first_button && target == first_target && first_time <= time ==> (double
                <==> time - first_time <= 300)
            &&& button == first_button && target == first_target && time < first_time ==> (double
                <==> time + 0x1_0000_0000 - first_time <= 300)
            &&& after.last_motion_location == state.last_motion_location
        }),
{
}

/// The first press of all makes no double click.
pub proof fn one_press_makes_no_double_click(
    state: DoubleClickState,
    time: u32,
    button: u32,
    target: u64,
)
    requires
        state.last_time_ms is None || state.last_button is None || state.last_target_id is None,
    ensures
        !state.completes(time, button, target),
        !seats::no_press().completes(time, button, target),
        seats::no_press().last_motion_location is None,
{
}

/// An output has the focus only while something has the focus of the keyboard.
pub proof fn outputs_have_the_focus_of_the_keyboard(outputs: SeatOutputs)
    ensures
        outputs.focus(true) == outputs.focused,
        outputs.focus(false) is None,
{
}

} // verus!
