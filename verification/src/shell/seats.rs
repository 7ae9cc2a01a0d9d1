//! Seats: the input devices that one user operates.

use crate::geometry::{Point, Rectangle, Size};
use crate::number::Float64;
use crate::seqs;
use crate::text::str_eq;
use vstd::prelude::*;
use vstd::string::StringExecFns;

verus! {

/// What a device can do.
#[derive(Clone, Copy, Debug, PartialEq, Eq, Structural)]
pub enum DeviceCapability {
    Keyboard,
    Pointer,
    TabletTool,
}

/// What a device, or several, can do.
#[derive(Clone, Copy, Debug, PartialEq, Eq, Structural)]
pub struct Capabilities {
    pub keyboard: bool,
    pub pointer: bool,
    pub tablet_tool: bool,
}

impl Capabilities {
    /// Those of this that the other lacks.
    pub open spec fn without(self, other: Self) -> Self {
        Capabilities {
            keyboard: self.keyboard && !other.keyboard,
            pointer: self.pointer && !other.pointer,
            tablet_tool: self.tablet_tool && !other.tablet_tool,
        }
    }

    /// Those of either.
    pub open spec fn union(self, other: Self) -> Self {
        Capabilities {
            keyboard: self.keyboard || other.keyboard,
            pointer: self.pointer || other.pointer,
            tablet_tool: self.tablet_tool || other.tablet_tool,
        }
    }

    /// The capabilities one after another.
    pub open spec fn listed(self) -> Seq<DeviceCapability> {
        let keyboard = if self.keyboard {
            seq![DeviceCapability::Keyboard]
        } else {
            seq![]
        };
        let pointer = if self.pointer {
            seq![DeviceCapability::Pointer]
        } else {
            seq![]
        };
        let tablet_tool = if self.tablet_tool {
            seq![DeviceCapability::TabletTool]
        } else {
            seq![]
        };
        keyboard + pointer + tablet_tool
    }

    /// The capabilities one after another.
    fn list(&self) -> (r: Vec<DeviceCapability>)
        ensures
            r@ == self.listed(),
    {
        let mut out: Vec<DeviceCapability> = Vec::new();
        if self.keyboard {
            out.push(DeviceCapability::Keyboard);
        }
        if self.pointer {
            out.push(DeviceCapability::Pointer);
        }
        if self.tablet_tool {
            out.push(DeviceCapability::TabletTool);
        }
        assert(out@ =~= self.listed());
        out
    }

    /// Those of this that the other lacks.
    fn lacking(&self, other: &Self) -> (r: Self)
        ensures
            r == self.without(*other),
    {
        Capabilities {
            keyboard: self.keyboard && !other.keyboard,
            pointer: self.pointer && !other.pointer,
            tablet_tool: self.tablet_tool && !other.tablet_tool,
        }
    }
}

/// A device of a seat.
#[derive(Debug, PartialEq, Eq)]
pub struct SeatDevice {
    pub id: String,
    pub capabilities: Capabilities,
}

/// The model of a device of a seat.
#[verifier::ext_equal]
pub struct DeviceModel {
    pub id: Seq<char>,
    pub capabilities: Capabilities,
}

impl View for SeatDevice {
    type V = DeviceModel;

    open spec fn view(&self) -> DeviceModel {
        DeviceModel { id: self.id@, capabilities: self.capabilities }
    }
}

/// The models of the devices of a seat.
pub open spec fn device_models(devices: Seq<SeatDevice>) -> Seq<DeviceModel> {
    devices.map_values(|d: SeatDevice| d@)
}

/// What the devices of a seat can do together.
pub open spec fn combined(devices: Seq<DeviceModel>) -> Capabilities
    decreases devices.len(),
{
    if devices.len() == 0 {
        Capabilities { keyboard: false, pointer: false, tablet_tool: false }
    } else {
        combined(devices.drop_last()).union(devices.last().capabilities)
    }
}

/// The first device with the given name.
pub open spec fn device_position(devices: Seq<DeviceModel>, id: Seq<char>) -> Option<int>
    decreases devices.len(),
{
    if devices.len() == 0 {
        None
    } else if devices[0].id == id {
        Some(0)
    } else {
        match device_position(devices.skip(1), id) {
            Some(i) => Some(i + 1),
            None => None,
        }
    }
}

/// The defining property of `device_position`.
proof fn lemma_device_position(devices: Seq<DeviceModel>, id: Seq<char>)
    ensures
        match device_position(devices, id) {
            Some(i) => 0 <= i < devices.len() && devices[i].id == id,
            None => forall|i: int| 0 <= i < devices.len() ==> (#[trigger] devices[i]).id != id,
        },
    decreases devices.len(),
{
    if devices.len() > 0 && devices[0].id != id {
        lemma_device_position(devices.skip(1), id);
        if device_position(devices.skip(1), id) is None {
            assert forall|i: int| 0 <= i < devices.len() implies (#[trigger] devices[i]).id
                != id by {
                if i > 0 {
                    assert(devices.skip(1)[i - 1] == devices[i]);
                }
            }
        }
    }
}

/// The devices with one more, which takes the place of one with the same name.
pub open spec fn with_device(devices: Seq<DeviceModel>, device: DeviceModel) -> Seq<DeviceModel> {
    match device_position(devices, device.id) {
        Some(i) => devices.update(i, device),
        None => devices.push(device),
    }
}

/// The devices of a seat.
#[derive(Debug, PartialEq, Eq)]
pub struct Devices {
    pub devices: Vec<SeatDevice>,
    /// The names of the keyboards whose lights can be set.
    pub keyboards: Vec<String>,
}

impl Default for Devices {
    /// No devices.
    fn default() -> (r: Self)
        ensures
            r@ == Seq::<DeviceModel>::empty(),
            r.keyboards@.len() == 0,
    {
        let r = Devices { devices: Vec::new(), keyboards: Vec::new() };
        assert(r@ =~= Seq::<DeviceModel>::empty());
        r
    }
}

impl View for Devices {
    type V = Seq<DeviceModel>;

    open spec fn view(&self) -> Seq<DeviceModel> {
        device_models(self.devices@)
    }
}

/// The first position of a text in a list.
pub open spec fn name_position(names: Seq<String>, id: Seq<char>) -> Option<int>
    decreases names.len(),
{
    if names.len() == 0 {
        None
    } else if names[0]@ == id {
        Some(0)
    } else {
        match name_position(names.skip(1), id) {
            Some(i) => Some(i + 1),
            None => None,
        }
    }
}

/// The first position of a text in a list.
fn find_name(names: &Vec<String>, id: &str) -> (r: Option<usize>)
    ensures
        match r {
            Some(i) => name_position(names@, id@) == Some(i as int) && i < names@.len(),
            None => name_position(names@, id@) is None,
        },
{
    let mut i: usize = 0;
    assert(names@.skip(0) =~= names@);
    while i < names.len()
        invariant
            i <= names@.len(),
            match name_position(names@.skip(i as int), id@) {
                Some(j) => name_position(names@, id@) == Some(i + j),
                None => name_position(names@, id@) is None,
            },
        decreases names@.len() - i,
    {
        assert(names@.skip(i as int).skip(1) =~= names@.skip(i + 1));
        if str_eq(names[i].as_str(), id) {
            return Some(i);
        }
        i += 1;
    }
    None
}

impl Devices {
    /// Where the device with the given name is.
    fn find(&self, id: &str) -> (r: Option<usize>)
        ensures
            match r {
                Some(i) => device_position(self@, id@) == Some(i as int) && i
                    < self.devices@.len(),
                None => device_position(self@, id@) is None,
            },
    {
        let ghost models = self@;
        let mut i: usize = 0;
        assert(models.skip(0) =~= models);
        while i < self.devices.len()
            invariant
                i <= self.devices@.len(),
                models == self@,
                match device_position(models.skip(i as int), id@) {
                    Some(j) => device_position(models, id@) == Some(i + j),
                    None => device_position(models, id@) is None,
                },
            decreases self.devices@.len() - i,
        {
            proof {
                assert(models.skip(i as int)[0] == self.devices@[i as int]@);
                assert(models.skip(i as int).skip(1) =~= models.skip(i + 1));
            }
            if str_eq(self.devices[i].id.as_str(), id) {
                return Some(i);
            }
            i += 1;
        }
        None
    }

    /// What the devices can do together.
    fn capabilities(&self) -> (r: Capabilities)
        ensures
            r == combined(self@),
    {
        let mut out: Capabilities = Capabilities {
            keyboard: false,
            pointer: false,
            tablet_tool: false,
        };
        let mut i: usize = 0;
        assert(self@.take(0) =~= Seq::<DeviceModel>::empty());
        while i < self.devices.len()
            invariant
                i <= self.devices@.len(),
                self@.len() == self.devices@.len(),
                out == combined(self@.take(i as int)),
            decreases self.devices@.len() - i,
        {
            let other: Capabilities = self.devices[i].capabilities;
            proof {
                assert(self@.take(i + 1).drop_last() =~= self@.take(i as int));
                assert(self@.take(i + 1).last() == self.devices@[i as int]@);
            }
            out = Capabilities {
                keyboard: out.keyboard || other.keyboard,
                pointer: out.pointer || other.pointer,
                tablet_tool: out.tablet_tool || other.tablet_tool,
            };
            i += 1;
        }
        assert(self@.take(i as int) =~= self@);
        out
    }

    /// Whether the device with the given name belongs to the seat.
    pub fn has_device(&self, id: &str) -> (r: bool)
        ensures
            r == (device_position(self@, id@) is Some),
    {
        self.find(id).is_some()
    }

    /// Adds a device to the seat, or changes what it can do; returns what no device of the seat
    /// could do before. `has_lights` says whether the lights of the device can be set, which
    /// matters for keyboards.
    pub fn add_device(&mut self, id: &str, capabilities: Capabilities, has_lights: bool) -> (r: Vec<
        DeviceCapability,
    >)
        ensures
            r@ == capabilities.without(combined(old(self)@)).listed(),
            final(self)@ == with_device(old(self)@, DeviceModel { id: id@, capabilities }),
            final(self).keyboards@.len() == old(self).keyboards@.len() + if capabilities.keyboard
                && has_lights {
                1int
            } else {
                0
            },
            forall|i: int|
                0 <= i < old(self).keyboards@.len() ==> final(self).keyboards@[i]
                    == #[trigger] old(self).keyboards@[i],
            capabilities.keyboard && has_lights ==> final(self).keyboards@.last()@ == id@,
    {
        let before: Capabilities = self.capabilities();
        let gained: Capabilities = capabilities.lacking(&before);
        let ghost devices = self.devices@;
        let device = SeatDevice { id: String::from_str(id), capabilities };
        match self.find(id) {
            Some(i) => {
                self.devices.set(i, device);
                proof {
                    assert(self@ =~= device_models(devices).update(i as int, device@));
                }
            },
            None => {
                self.devices.push(device);
                proof {
                    assert(self@ =~= device_models(devices).push(device@));
                }
            },
        }
        if capabilities.keyboard && has_lights {
            self.keyboards.push(String::from_str(id));
        }
        gained.list()
    }

    /// Removes a device from the seat; returns what no device of the seat can do any more.
    pub fn remove_device(&mut self, id: &str) -> (r: Vec<DeviceCapability>)
        ensures
            match device_position(old(self)@, id@) {
                Some(i) => final(self)@ == old(self)@.remove(i) && r@
                    == old(self)@[i].capabilities.without(combined(final(self)@)).listed(),
                None => final(self)@ == old(self)@ && r@.len() == 0,
            },
            final(self).keyboards@ == match name_position(old(self).keyboards@, id@) {
                Some(i) => old(self).keyboards@.remove(i),
                None => old(self).keyboards@,
            },
    {
        let ghost before = self.devices@;
        if let Some(i) = find_name(&self.keyboards, id) {
            self.keyboards.remove(i);
        }
        match self.find(id) {
            Some(i) => {
                assert(self@[i as int] == self.devices@[i as int]@);
                let removed: SeatDevice = self.devices.remove(i);
                assert(self@ =~= device_models(before).remove(i as int));
                let left: Capabilities = self.capabilities();
                removed.capabilities.lacking(&left).list()
            },
            None => Vec::new(),
        }
    }
}

/// A seat.
#[derive(Debug, PartialEq, Eq)]
pub struct Seat {
    pub id: u64,
    pub devices: Devices,
}

/// The seats.
#[derive(Debug, PartialEq, Eq)]
pub struct Seats {
    pub seats: Vec<Seat>,
    /// The seat that was used last.
    pub last_active: Option<u64>,
}

/// The seats by their numbers.
pub open spec fn seat_ids(seats: Seq<Seat>) -> Seq<u64> {
    seats.map_values(|s: Seat| s.id)
}

impl Default for Seats {
    /// No seats.
    fn default() -> (r: Self)
        ensures
            r.seats@.len() == 0,
            r.last_active is None,
    {
        Seats::new()
    }
}

impl Seats {
    /// Whether the seat that was used last is one of the seats, and there is one unless there
    /// are no seats.
    pub open spec fn valid(self) -> bool {
        match self.last_active {
            Some(id) => seat_ids(self.seats@).contains(id),
            None => self.seats@.len() == 0,
        }
    }

    /// No seats.
    pub fn new() -> (r: Self)
        ensures
            r.seats@.len() == 0,
            r.last_active is None,
            r.valid(),
    {
        Seats { seats: Vec::new(), last_active: None }
    }

    /// Adds a seat. The first seat counts as used.
    pub fn add_seat(&mut self, seat: Seat)
        ensures
            final(self).seats@ == old(self).seats@.push(seat),
            final(self).last_active == if old(self).seats@.len() == 0 {
                Some(seat.id)
            } else {
                old(self).last_active
            },
            old(self).valid() ==> final(self).valid(),
    {
        if self.seats.len() == 0 {
            self.last_active = Some(seat.id);
        }
        let ghost before = self.seats@;
        self.seats.push(seat);
        proof {
            let ids = seat_ids(self.seats@);
            assert(ids =~= seat_ids(before).push(seat.id));
            assert(ids[before.len() as int] == seat.id);
            if let Some(id) = old(self).last_active {
                if seat_ids(before).contains(id) {
                    let i = choose|i: int|
                        0 <= i < seat_ids(before).len() && seat_ids(before)[i] == id;
                    assert(ids[i] == id);
                }
            }
        }
    }

    /// Removes a seat. Where it was used last, the first of the others counts as used.
    pub fn remove_seat(&mut self, id: u64)
        ensures
            final(self).seats@ == old(self).seats@.filter(|s: Seat| s.id != id),
            final(self).last_active == if final(self).seats@.len() == 0 {
                None
            } else if old(self).last_active == Some(id) {
                Some(final(self).seats@[0].id)
            } else {
                old(self).last_active
            },
            old(self).valid() ==> final(self).valid(),
    {
        let ghost before = self.seats@;
        let ghost keep = |s: Seat| s.id != id;
        let ghost mut k: int = 0;
        let mut i: usize = 0;
        proof {
            reveal(Seq::filter);
            assert(before.take(0) =~= Seq::<Seat>::empty());
            assert(self.seats@.take(0) =~= Seq::<Seat>::empty());
            assert(self.seats@.skip(0) =~= before.skip(0));
        }
        while i < self.seats.len()
            invariant
                keep == (|s: Seat| s.id != id),
                i <= self.seats@.len(),
                0 <= k <= before.len(),
                self.last_active == old(self).last_active,
                self.seats@.take(i as int) == before.take(k).filter(keep),
                self.seats@.skip(i as int) == before.skip(k),
            decreases self.seats@.len() - i,
        {
            let ghost now = self.seats@;
            proof {
                assert(now.skip(i as int).len() == before.skip(k).len());
                assert(k < before.len());
                assert(now.skip(i as int)[0] == now[i as int]);
                assert(before.skip(k)[0] == before[k]);
                seqs::lemma_filter_take(before, keep, k);
            }
            if self.seats[i].id == id {
                self.seats.remove(i);
                proof {
                    assert(self.seats@.take(i as int) =~= now.take(i as int));
                    assert(self.seats@.skip(i as int) =~= now.skip(i as int).skip(1));
                    assert(before.skip(k).skip(1) =~= before.skip(k + 1));
                }
            } else {
                proof {
                    assert(now.take(i + 1) =~= now.take(i as int).push(now[i as int]));
                    assert(now.skip(i + 1) =~= now.skip(i as int).skip(1));
                    assert(before.skip(k).skip(1) =~= before.skip(k + 1));
                }
                i += 1;
            }
            proof {
                k = k + 1;
            }
        }
        proof {
            assert(self.seats@.skip(i as int).len() == 0);
            assert(before.skip(k).len() == 0);
            assert(before.take(k) =~= before);
            assert(self.seats@.take(i as int) =~= self.seats@);
        }
        if self.seats.len() == 0 {
            self.last_active = None;
        } else if self.last_active == Some(id) {
            self.last_active = Some(self.seats[0].id);
        }
        proof {
            let ids = seat_ids(self.seats@);
            if let Some(last) = self.last_active {
                if old(self).last_active == Some(id) {
                    assert(ids[0] == last);
                } else if seat_ids(before).contains(last) {
                    let i = choose|i: int|
                        0 <= i < seat_ids(before).len() && seat_ids(before)[i] == last;
                    seqs::lemma_filter_contains(before, keep);
                    assert(self.seats@.contains(before[i]));
                    let j = choose|j: int|
                        0 <= j < self.seats@.len() && self.seats@[j] == before[i];
                    assert(ids[j] == last);
                }
            }
        }
    }

    /// The numbers of the seats.
    pub fn all(&self) -> (r: Vec<u64>)
        ensures
            r@ == seat_ids(self.seats@),
    {
        let mut out: Vec<u64> = Vec::new();
        let mut i: usize = 0;
        while i < self.seats.len()
            invariant
                i <= self.seats@.len(),
                out@ =~= seat_ids(self.seats@).take(i as int),
            decreases self.seats@.len() - i,
        {
            out.push(self.seats[i].id);
            i += 1;
        }
        out
    }

    /// The seat that was used last.
    pub fn last_active(&self) -> (r: u64)
        requires
            self.last_active is Some,
        ensures
            Some(r) == self.last_active,
    {
        match self.last_active {
            Some(id) => id,
            None => 0,
        }
    }

    /// Notes that a seat is used.
    pub fn update_last_active(&mut self, id: u64)
        ensures
            *final(self) == (Seats { last_active: Some(id), ..*old(self) }),
    {
        self.last_active = Some(id);
    }

    /// The first seat that a device belongs to.
    pub fn for_device(&self, id: &str) -> (r: Option<u64>)
        ensures
            match r {
                Some(seat) => exists|i: int|
                    0 <= i < self.seats@.len() && (#[trigger] self.seats@[i]).id == seat
                        && device_position(self.seats@[i].devices@, id@) is Some && forall|j: int|
                        0 <= j < i ==> device_position(
                            (#[trigger] self.seats@[j]).devices@,
                            id@,
                        ) is None,
                None => forall|i: int|
                    0 <= i < self.seats@.len() ==> device_position(
                        (#[trigger] self.seats@[i]).devices@,
                        id@,
                    ) is None,
            },
    {
        let mut i: usize = 0;
        while i < self.seats.len()
            invariant
                i <= self.seats@.len(),
                forall|j: int|
                    0 <= j < i ==> device_position(
                        (#[trigger] self.seats@[j]).devices@,
                        id@,
                    ) is None,
            decreases self.seats@.len() - i,
        {
            if self.seats[i].devices.has_device(id) {
                return Some(self.seats[i].id);
            }
            i += 1;
        }
        None
    }
}

/// The longest time between the presses of a double click, in milliseconds.
pub const DCLK_TIME_MS: u32 = 300;

/// How far the pointer may move at once between the presses of a double click.
pub const DCLK_DISTANCE_PX: u32 = 10;

/// A position of the pointer.
#[derive(Clone, Copy, Debug, PartialEq, Eq, Structural)]
pub struct PointerLocation {
    pub x: Float64,
    pub y: Float64,
}

/// What is known of the last press.
#[derive(Clone, Copy, Debug, PartialEq, Eq, Structural)]
pub struct DoubleClickState {
    pub last_time_ms: Option<u32>,
    pub last_button: Option<u32>,
    /// Where the pointer moved to last.
    pub last_motion_location: Option<PointerLocation>,
    pub last_target_id: Option<u64>,
}

/// Nothing is known of the last press.
pub open spec fn no_press() -> DoubleClickState {
    DoubleClickState {
        last_time_ms: None,
        last_button: None,
        last_motion_location: None,
        last_target_id: None,
    }
}

impl Default for DoubleClickState {
    /// Nothing.
    fn default() -> (r: Self)
        ensures
            r == no_press(),
    {
        DoubleClickState {
            last_time_ms: None,
            last_button: None,
            last_motion_location: None,
            last_target_id: None,
        }
    }
}

/// What recognises double clicks.
#[derive(Clone, Copy, Debug, PartialEq, Eq, Structural)]
pub struct DoubleClickTracker {
    pub inner: DoubleClickState,
}

impl Default for DoubleClickTracker {
    /// Nothing is known of the last press.
    fn default() -> (r: Self)
        ensures
            r.inner == no_press(),
    {
        DoubleClickTracker { inner: DoubleClickState::default() }
    }
}

/// The time from one press to another, on a clock that starts again after the largest number.
pub open spec fn time_between(from: u32, to: u32) -> int {
    if to >= from {
        to - from
    } else {
        to - from + 0x1_0000_0000
    }
}

impl DoubleClickState {
    /// Whether a press makes a double click with the last one: the same button on the same
    /// surface, soon enough.
    pub open spec fn completes(self, time_ms: u32, button: u32, target_id: u64) -> bool {
        &&& self.last_time_ms matches Some(last) && time_between(last, time_ms) <= DCLK_TIME_MS
        &&& self.last_button == Some(button)
        &&& self.last_target_id == Some(target_id)
    }

    /// What is known after a press: the press, unless it made a double click.
    pub open spec fn pressed(self, time_ms: u32, button: u32, target_id: u64) -> Self {
        if self.completes(time_ms, button, target_id) {
            DoubleClickState {
                last_time_ms: None,
                last_button: None,
                last_target_id: None,
                ..self
            }
        } else {
            DoubleClickState {
                last_time_ms: Some(time_ms),
                last_button: Some(button),
                last_target_id: Some(target_id),
                ..self
            }
        }
    }
}

impl DoubleClickTracker {
    /// Notes a press; returns whether it makes a double click.
    pub fn observe_press(&mut self, time_ms: u32, button: u32, target_id: u64) -> (r: bool)
        ensures
            r == old(self).inner.completes(time_ms, button, target_id),
            final(self).inner == old(self).inner.pressed(time_ms, button, target_id),
    {
        let is_double: bool = match (
            self.inner.last_time_ms,
            self.inner.last_button,
            self.inner.last_target_id,
        ) {
            (Some(last), Some(last_button), Some(last_target)) => {
                let dt: u32 = time_ms.wrapping_sub(last);
                last_button == button && last_target == target_id && dt <= DCLK_TIME_MS
            },
            _ => false,
        };
        if is_double {
            self.inner.last_time_ms = None;
            self.inner.last_button = None;
            self.inner.last_target_id = None;
        } else {
            self.inner.last_time_ms = Some(time_ms);
            self.inner.last_button = Some(button);
            self.inner.last_target_id = Some(target_id);
        }
        is_double
    }

    /// Forgets the last press.
    pub fn invalidate(&mut self)
        ensures
            final(self).inner == no_press(),
    {
        self.inner = DoubleClickState::default();
    }

    /// Notes that the pointer moved. `far` says whether it moved further than a double click
    /// allows since it moved last, which makes the last press be forgotten.
    pub fn invalidate_on_motion(&mut self, location: PointerLocation, far: bool)
        ensures
            final(self).inner == (DoubleClickState {
                last_motion_location: Some(location),
                ..if old(self).inner.last_motion_location is Some && far {
                    no_press()
                } else {
                    old(self).inner
                }
            }),
    {
        if self.inner.last_motion_location.is_some() && far {
            self.inner = DoubleClickState::default();
        }
        self.inner.last_motion_location = Some(location);
    }
}

/// The outputs of a seat.
#[derive(Clone, Copy, Debug, PartialEq, Eq, Structural)]
pub struct SeatOutputs {
    /// The output with the cursor.
    pub active: u64,
    /// The output with the focus of the keyboard.
    pub focused: Option<u64>,
}

impl SeatOutputs {
    /// The output with the focus of the keyboard, while something has that focus.
    pub open spec fn focus(self, has_focus: bool) -> Option<u64> {
        if has_focus {
            self.focused
        } else {
            None
        }
    }

    /// The output with the focus of the keyboard, while something has that focus.
    pub fn focused_output(&self, has_focus: bool) -> (r: Option<u64>)
        ensures
            r == self.focus(has_focus),
    {
        if has_focus {
            self.focused
        } else {
            None
        }
    }

    /// The output with the focus of the keyboard, or else that with the cursor.
    pub fn focused_or_active_output(&self, has_focus: bool) -> (r: u64)
        ensures
            r == match self.focus(has_focus) {
                Some(output) => output,
                None => self.active,
            },
    {
        match self.focused_output(has_focus) {
            Some(output) => output,
            None => self.active,
        }
    }
}

/// The picture of the cursor.
#[derive(Clone, Copy, Debug, PartialEq, Eq, Structural)]
pub enum CursorImageStatus {
    /// None.
    Hidden,
    /// The one of the theme with the given number; 0 is the default one.
    Named(u32),
    /// A surface of a client.
    Surface { surface: u64, alive: bool },
}

/// The picture of the cursor: the default one where the client's surface is gone.
pub fn cursor_image_status(status: &mut CursorImageStatus) -> (r: CursorImageStatus)
    ensures
        *final(status) == match *old(status) {
            CursorImageStatus::Surface { surface, alive: false } => CursorImageStatus::Named(0),
            other => other,
        },
        r == *final(status),
{
    if let CursorImageStatus::Surface { surface, alive } = *status {
        if !alive {
            *status = CursorImageStatus::Named(0);
        }
    }
    *status
}

/// What is drawn as the cursor.
#[derive(Clone, Copy, Debug, PartialEq, Eq, Structural)]
pub enum CursorPicture {
    Hidden,
    /// A picture of the theme.
    Frame { width: u32, height: u32, xhot: u32, yhot: u32 },
    /// A surface of a client, whose area is known.
    Surface { area: Rectangle, hotspot: Point },
}

/// The area of the cursor and its hot spot, with the cursor at the given position.
pub fn cursor_geometry(picture: CursorPicture, location: Point) -> (r: Option<(Rectangle, Point)>)
    ensures
        r == match picture {
            CursorPicture::Hidden => None,
            CursorPicture::Frame { width, height, xhot, yhot } => Some(
                (
                    Rectangle { loc: location, size: Size { w: width as i32, h: height as i32 } },
                    Point { x: xhot as i32, y: yhot as i32 },
                ),
            ),
            CursorPicture::Surface { area, hotspot } => Some((area, hotspot)),
        },
{
    match picture {
        CursorPicture::Hidden => None,
        CursorPicture::Frame { width, height, xhot, yhot } => Some(
            (
                Rectangle { loc: location, size: Size { w: width as i32, h: height as i32 } },
                Point { x: xhot as i32, y: yhot as i32 },
            ),
        ),
        CursorPicture::Surface { area, hotspot } => Some((area, hotspot)),
    }
}

/// What a new device brings is lost when it is removed again, and nothing else.
pub proof fn removing_undoes_adding(devices: Seq<DeviceModel>, device: DeviceModel)
    requires
        device_position(devices, device.id) is None,
    ensures
        ({
            let after = with_device(devices, device);
            &&& device_position(after, device.id) == Some(devices.len() as int)
            &&& after.remove(devices.len() as int) == devices
            &&& after[devices.len() as int].capabilities.without(combined(devices))
                == device.capabilities.without(combined(devices))
        }),
{
    lemma_device_position(devices, device.id);
    lemma_pushed_position(devices, device);
    assert(devices.push(device).remove(devices.len() as int) =~= devices);
}

/// A new device is found behind the others.
proof fn lemma_pushed_position(devices: Seq<DeviceModel>, device: DeviceModel)
    requires
        forall|i: int| 0 <= i < devices.len() ==> (#[trigger] devices[i]).id != device.id,
    ensures
        device_position(devices.push(device), device.id) == Some(devices.len() as int),
    decreases devices.len(),
{
    let all = devices.push(device);
    if devices.len() > 0 {
        assert(all[0] == devices[0]);
        assert(all.skip(1) =~= devices.skip(1).push(device));
        assert forall|i: int| 0 <= i < devices.skip(1).len() implies (#[trigger] devices.skip(
            1,
        )[i]).id != device.id by {
            assert(devices.skip(1)[i] == devices[i + 1]);
        }
        lemma_pushed_position(devices.skip(1), device);
    }
}

/// A double click is not the beginning of another: the press after it never makes one.
pub proof fn double_clicks_do_not_cascade(
    state: DoubleClickState,
    time_ms: u32,
    button: u32,
    target_id: u64,
    next_time_ms: u32,
    next_button: u32,
    next_target_id: u64,
)
    requires
        state.completes(time_ms, button, target_id),
    ensures
        !state.pressed(time_ms, button, target_id).completes(
            next_time_ms,
            next_button,
            next_target_id,
        ),
{
}

/// Two presses of the same button on the same surface make a double click exactly when they are
/// close in time, unless the first one had already made one.
pub proof fn close_presses_make_a_double_click(
    state: DoubleClickState,
    time_ms: u32,
    next_time_ms: u32,
    button: u32,
    target_id: u64,
)
    requires
        !state.completes(time_ms, button, target_id),
    ensures
        state.pressed(time_ms, button, target_id).completes(next_time_ms, button, target_id) == (
        time_between(time_ms, next_time_ms) <= DCLK_TIME_MS),
{
}

} // verus!
