//! The configuration of pointers and touchpads.

use crate::config::value;
use crate::config::value::{get_bool, get_float, get_str, get_table, TomlEntry, TomlModel};
use crate::number::{Float64, MINUS_ONE_BITS, ONE_BITS};
use crate::text;
use crate::text::{optional_eq, str_eq};
use vstd::prelude::*;

verus! {

/// Whether a device is used.
#[derive(Clone, Copy, Debug, PartialEq, Eq, Structural)]
pub enum InputDeviceState {
    Enabled,
    Disabled,
    DisabledOnExternalMouse,
}

/// Whether touchpads are used, whatever their own configuration says.
#[derive(Clone, Copy, Debug, PartialEq, Eq, Structural)]
pub enum TouchpadOverride {
    NoOverride,
    ForceDisable,
}

/// The profiles of pointer acceleration.
#[derive(Clone, Copy, Debug, PartialEq, Eq, Structural)]
pub enum AccelProfile {
    Flat,
    Adaptive,
}

/// The acceleration of a pointer.
#[derive(Clone, Copy, Debug, PartialEq, Eq, Structural)]
pub struct AccelConfig {
    pub profile: Option<AccelProfile>,
    pub speed: Float64,
}

/// How a device scrolls.
#[derive(Clone, Copy, Debug, PartialEq, Eq, Structural)]
pub enum ScrollMethod {
    NoScroll,
    TwoFinger,
    Edge,
    OnButtonDown,
}

/// The scrolling of a device.
#[derive(Clone, Copy, Debug, PartialEq, Eq, Structural)]
pub struct ScrollConfig {
    pub method: Option<ScrollMethod>,
    pub natural_scroll: Option<bool>,
    pub scroll_button: Option<u32>,
    pub scroll_factor: Option<Float64>,
}

/// How a touchpad clicks.
#[derive(Clone, Copy, Debug, PartialEq, Eq, Structural)]
pub enum ClickMethod {
    ButtonAreas,
    Clickfinger,
}

/// Which buttons taps of one, two and three fingers press.
#[derive(Clone, Copy, Debug, PartialEq, Eq, Structural)]
pub enum TapButtonMap {
    LeftRightMiddle,
    LeftMiddleRight,
}

/// The taps of a touchpad.
#[derive(Clone, Copy, Debug, PartialEq, Eq, Structural)]
pub struct TapConfig {
    pub enabled: bool,
    pub button_map: Option<TapButtonMap>,
    pub drag: bool,
    pub drag_lock: bool,
}

/// The configuration of a device.
#[derive(Debug, PartialEq, Eq)]
pub struct InputConfig {
    pub state: InputDeviceState,
    pub acceleration: Option<AccelConfig>,
    pub click_method: Option<ClickMethod>,
    pub disable_while_typing: Option<bool>,
    pub left_handed: Option<bool>,
    pub scroll_config: Option<ScrollConfig>,
    pub tap_config: Option<TapConfig>,
    pub map_to_output: Option<String>,
}

impl Clone for InputConfig {
    fn clone(&self) -> (r: InputConfig)
        ensures
            r == *self,
    {
        let map_to_output: Option<String> = match &self.map_to_output {
            Some(output) => Some(output.clone()),
            None => None,
        };
        InputConfig {
            state: self.state,
            acceleration: self.acceleration,
            click_method: self.click_method,
            disable_while_typing: self.disable_while_typing,
            left_handed: self.left_handed,
            scroll_config: self.scroll_config,
            tap_config: self.tap_config,
            map_to_output,
        }
    }
}

impl Default for InputConfig {
    fn default() -> (r: InputConfig)
        ensures
            r == unset_input(),
    {
        InputConfig {
            state: InputDeviceState::Enabled,
            acceleration: None,
            click_method: None,
            disable_while_typing: None,
            left_handed: None,
            scroll_config: None,
            tap_config: None,
            map_to_output: None,
        }
    }
}

/// A device that is used, with nothing configured.
pub open spec fn unset_input() -> InputConfig {
    InputConfig {
        state: InputDeviceState::Enabled,
        acceleration: None,
        click_method: None,
        disable_while_typing: None,
        left_handed: None,
        scroll_config: None,
        tap_config: None,
        map_to_output: None,
    }
}

/// Scrolling with nothing configured.
pub open spec fn unset_scroll() -> ScrollConfig {
    ScrollConfig { method: None, natural_scroll: None, scroll_button: None, scroll_factor: None }
}

/// The scrolling of a device, unset where it has none.
pub open spec fn scroll_of(input: InputConfig) -> ScrollConfig {
    match input.scroll_config {
        Some(scroll) => scroll,
        None => unset_scroll(),
    }
}

/// The scrolling of a device, unset where it has none.
fn scroll_or_unset(input: &InputConfig) -> (r: ScrollConfig)
    ensures
        r == scroll_of(*input),
{
    match input.scroll_config {
        Some(scroll) => scroll,
        None => ScrollConfig {
            method: None,
            natural_scroll: None,
            scroll_button: None,
            scroll_factor: None,
        },
    }
}

/// The bits of 0.1, the smallest factor of scrolling.
pub const MIN_SCROLL_BITS: u64 = 0x3FB9_9999_9999_999A;

/// The bits of 3, the largest factor of scrolling.
pub const MAX_SCROLL_BITS: u64 = 0x4008_0000_0000_0000;

/// A speed within the range from -1 to 1.
pub open spec fn speed_in_range(f: Float64) -> Float64 {
    f.clamped(Float64 { bits: MINUS_ONE_BITS }, Float64 { bits: ONE_BITS })
}

/// A factor within the range from 0.1 to 3.
pub open spec fn factor_in_range(f: Float64) -> Float64 {
    f.clamped(Float64 { bits: MIN_SCROLL_BITS }, Float64 { bits: MAX_SCROLL_BITS })
}

/// The acceleration under a key, over that of a device.
pub open spec fn acceleration_over(f: Option<Float64>, input: InputConfig) -> Option<AccelConfig> {
    match f {
        Some(f) => Some(
            AccelConfig {
                profile: match input.acceleration {
                    Some(accel) => accel.profile,
                    None => None,
                },
                speed: speed_in_range(f),
            },
        ),
        None => input.acceleration,
    }
}

/// The acceleration under a key, over that of a device.
fn acceleration(f: Option<Float64>, input: &InputConfig) -> (r: Option<AccelConfig>)
    ensures
        r == acceleration_over(f, *input),
{
    match f {
        Some(f) => {
            let speed: Float64 = f.clamp(
                Float64 { bits: MINUS_ONE_BITS },
                Float64 { bits: ONE_BITS },
            );
            let profile: Option<AccelProfile> = match input.acceleration {
                Some(accel) => accel.profile,
                None => None,
            };
            Some(AccelConfig { profile, speed })
        },
        None => input.acceleration,
    }
}

/// The value that is given, or else the one that was there.
pub open spec fn given_or<T>(given: Option<T>, before: Option<T>) -> Option<T> {
    if given is Some {
        given
    } else {
        before
    }
}

/// The configuration of a pointer with what the table `mouse` of a document gives. What it does
/// not give stays.
pub open spec fn with_mouse(
    document: Seq<(Seq<char>, TomlModel)>,
    input: InputConfig,
) -> InputConfig {
    match value::table_at(document, "mouse"@) {
        Some(section) => {
            let natural = value::bool_at(section, "natural_scroll"@);
            let speed = value::float_at(section, "scroll_speed"@);
            InputConfig {
                acceleration: acceleration_over(value::float_at(section, "acceleration"@), input),
                left_handed: given_or(value::bool_at(section, "left_handed"@), input.left_handed),
                scroll_config: if natural is Some || speed is Some {
                    Some(
                        ScrollConfig {
                            natural_scroll: given_or(natural, scroll_of(input).natural_scroll),
                            scroll_factor: match speed {
                                Some(f) => Some(factor_in_range(f)),
                                None => scroll_of(input).scroll_factor,
                            },
                            ..scroll_of(input)
                        },
                    )
                } else {
                    input.scroll_config
                },
                ..input
            }
        },
        None => input,
    }
}

/// Applies the table `mouse` of a document to the configuration of a pointer.
pub fn parse_mouse_config(table: &Vec<TomlEntry>, input: &mut InputConfig)
    ensures
        *final(input) == with_mouse(value::entries_model(table@), *old(input)),
{
    let section: &Vec<TomlEntry> = match get_table(table, "mouse") {
        Some(section) => section,
        None => return ,
    };
    input.acceleration = acceleration(get_float(section, "acceleration"), input);
    if let Some(b) = get_bool(section, "natural_scroll") {
        let mut scroll: ScrollConfig = scroll_or_unset(input);
        scroll.natural_scroll = Some(b);
        input.scroll_config = Some(scroll);
    }
    if let Some(b) = get_bool(section, "left_handed") {
        input.left_handed = Some(b);
    }
    if let Some(f) = get_float(section, "scroll_speed") {
        let factor: Float64 = f.clamp(
            Float64 { bits: MIN_SCROLL_BITS },
            Float64 { bits: MAX_SCROLL_BITS },
        );
        let mut scroll: ScrollConfig = scroll_or_unset(input);
        scroll.scroll_factor = Some(factor);
        input.scroll_config = Some(scroll);
    }
}

/// The taps of a touchpad after `tap_to_click` has been given.
pub open spec fn with_tapping(tap: Option<TapConfig>, enabled: Option<bool>) -> Option<TapConfig> {
    match (tap, enabled) {
        (_, None) => tap,
        (Some(t), Some(b)) => Some(TapConfig { enabled: b, ..t }),
        (None, Some(b)) => Some(
            TapConfig { enabled: b, button_map: None, drag: true, drag_lock: false },
        ),
    }
}

/// The taps of a touchpad after `tap_drag` has been given.
pub open spec fn with_dragging(tap: Option<TapConfig>, drag: Option<bool>) -> Option<TapConfig> {
    match (tap, drag) {
        (_, None) => tap,
        (Some(t), Some(b)) => Some(TapConfig { drag: b, ..t }),
        (None, Some(b)) => Some(
            TapConfig { enabled: true, button_map: None, drag: b, drag_lock: false },
        ),
    }
}

/// The scrolling of a touchpad after its direction and the use of two fingers have been given.
pub open spec fn with_scrolling(
    input: InputConfig,
    natural: Option<bool>,
    two_finger: Option<bool>,
) -> Option<ScrollConfig> {
    if natural is Some || two_finger is Some {
        Some(
            ScrollConfig {
                natural_scroll: given_or(natural, scroll_of(input).natural_scroll),
                method: match two_finger {
                    Some(true) => Some(ScrollMethod::TwoFinger),
                    Some(false) => Some(ScrollMethod::NoScroll),
                    None => scroll_of(input).method,
                },
                ..scroll_of(input)
            },
        )
    } else {
        input.scroll_config
    }
}

/// The click method of a name; none for an unknown one.
pub open spec fn click_method_named(name: Seq<char>) -> Option<ClickMethod> {
    if name == "areas"@ || name == "buttonareas"@ || name == "button_areas"@ {
        Some(ClickMethod::ButtonAreas)
    } else if name == "clickfinger"@ {
        Some(ClickMethod::Clickfinger)
    } else {
        None
    }
}

/// The configuration of a touchpad with what the table `touchpad` of a document gives. What it
/// does not give stays, and an unknown click method unsets the one before.
pub open spec fn with_touchpad(
    document: Seq<(Seq<char>, TomlModel)>,
    input: InputConfig,
) -> InputConfig {
    match value::table_at(document, "touchpad"@) {
        Some(section) => {
            let natural = value::bool_at(section, "natural_scroll"@);
            let two_finger = value::bool_at(section, "two_finger_scroll"@);
            InputConfig {
                tap_config: with_dragging(
                    with_tapping(input.tap_config, value::bool_at(section, "tap_to_click"@)),
                    value::bool_at(section, "tap_drag"@),
                ),
                scroll_config: with_scrolling(input, natural, two_finger),
                disable_while_typing: given_or(
                    value::bool_at(section, "disable_while_typing"@),
                    input.disable_while_typing,
                ),
                acceleration: acceleration_over(value::float_at(section, "acceleration"@), input),
                click_method: match value::text_at(section, "click_method"@) {
                    Some(name) => click_method_named(name),
                    None => input.click_method,
                },
                ..input
            }
        },
        None => input,
    }
}

/// The taps of a touchpad after `tap_to_click` has been given.
fn tapping(tap: Option<TapConfig>, enabled: Option<bool>) -> (r: Option<TapConfig>)
    ensures
        r == with_tapping(tap, enabled),
{
    let b: bool = match enabled {
        Some(b) => b,
        None => return tap,
    };
    let mut tap: TapConfig = match tap {
        Some(tap) => tap,
        None => TapConfig { enabled: b, button_map: None, drag: true, drag_lock: false },
    };
    tap.enabled = b;
    Some(tap)
}

/// The taps of a touchpad after `tap_drag` has been given.
fn dragging(tap: Option<TapConfig>, drag: Option<bool>) -> (r: Option<TapConfig>)
    ensures
        r == with_dragging(tap, drag),
{
    let b: bool = match drag {
        Some(b) => b,
        None => return tap,
    };
    let mut tap: TapConfig = match tap {
        Some(tap) => tap,
        None => TapConfig { enabled: true, button_map: None, drag: b, drag_lock: false },
    };
    tap.drag = b;
    Some(tap)
}

/// The scrolling of a touchpad after its direction and the use of two fingers have been given.
fn scrolling(input: &InputConfig, natural: Option<bool>, two_finger: Option<bool>) -> (r: Option<
    ScrollConfig,
>)
    ensures
        r == with_scrolling(*input, natural, two_finger),
{
    if natural.is_none() && two_finger.is_none() {
        return input.scroll_config;
    }
    let mut scroll: ScrollConfig = scroll_or_unset(input);
    if let Some(b) = natural {
        scroll.natural_scroll = Some(b);
    }
    if let Some(b) = two_finger {
        scroll.method = if b {
            Some(ScrollMethod::TwoFinger)
        } else {
            Some(ScrollMethod::NoScroll)
        };
    }
    Some(scroll)
}

/// The click method of a name; none for an unknown one.
fn click_method(name: &str) -> (r: Option<ClickMethod>)
    ensures
        r == click_method_named(name@),
{
    if str_eq(name, "areas") || str_eq(name, "buttonareas") || str_eq(name, "button_areas") {
        Some(ClickMethod::ButtonAreas)
    } else if str_eq(name, "clickfinger") {
        Some(ClickMethod::Clickfinger)
    } else {
        None
    }
}

/// Applies the table `touchpad` of a document to the configuration of a touchpad.
pub fn parse_touchpad_config(table: &Vec<TomlEntry>, input: &mut InputConfig)
    ensures
        *final(input) == with_touchpad(value::entries_model(table@), *old(input)),
{
    let section: &Vec<TomlEntry> = match get_table(table, "touchpad") {
        Some(section) => section,
        None => return ,
    };
    let tapped: Option<TapConfig> = tapping(input.tap_config, get_bool(section, "tap_to_click"));
    input.tap_config = dragging(tapped, get_bool(section, "tap_drag"));
    input.scroll_config = scrolling(
        input,
        get_bool(section, "natural_scroll"),
        get_bool(section, "two_finger_scroll"),
    );
    if let Some(b) = get_bool(section, "disable_while_typing") {
        input.disable_while_typing = Some(b);
    }
    input.acceleration = acceleration(get_float(section, "acceleration"), input);
    if let Some(name) = get_str(section, "click_method") {
        input.click_method = click_method(name);
    }
}

/// The configuration of the device with the given name among those configured by name.
pub open spec fn device_named(
    devices: Seq<(String, InputConfig)>,
    name: Seq<char>,
) -> Option<InputConfig>
    decreases devices.len(),
{
    if devices.len() == 0 {
        None
    } else if devices[0].0@ == name {
        Some(devices[0].1)
    } else {
        device_named(devices.skip(1), name)
    }
}

/// The configuration of a device by its name; a touchpad is disabled where all touchpads are.
pub open spec fn device_config(
    devices: Seq<(String, InputConfig)>,
    name: Seq<char>,
    is_touchpad: bool,
    touchpads: TouchpadOverride,
) -> Option<InputConfig> {
    let own = device_named(devices, name);
    if is_touchpad && touchpads == TouchpadOverride::ForceDisable {
        Some(
            InputConfig {
                state: InputDeviceState::Disabled,
                ..match own {
                    Some(config) => config,
                    None => unset_input(),
                }
            },
        )
    } else {
        own
    }
}

/// The configuration of a device by its name. A device is a touchpad where it tells at least one
/// finger tapping; `tap_fingers` is how many it does.
pub fn get_device_config(
    devices: &Vec<(String, InputConfig)>,
    name: &str,
    tap_fingers: u32,
    touchpads: TouchpadOverride,
) -> (r: Option<InputConfig>)
    ensures
        r == device_config(devices@, name@, tap_fingers > 0, touchpads),
{
    let mut own: Option<InputConfig> = None;
    let mut i: usize = 0;
    proof {
        assert(devices@.skip(0) =~= devices@);
    }
    while i < devices.len() && own.is_none()
        invariant
            i <= devices@.len(),
            match own {
                Some(config) => device_named(devices@, name@) == Some(config),
                None => device_named(devices@, name@) == device_named(
                    devices@.skip(i as int),
                    name@,
                ),
            },
        decreases devices@.len() - i,
    {
        proof {
            assert(devices@.skip(i as int).skip(1) =~= devices@.skip(i + 1));
        }
        if str_eq(devices[i].0.as_str(), name) {
            own = Some(devices[i].1.clone());
        }
        i += 1;
    }
    if tap_fingers > 0 && touchpads == TouchpadOverride::ForceDisable {
        let mut config: InputConfig = match own {
            Some(config) => config,
            None => InputConfig::default(),
        };
        config.state = InputDeviceState::Disabled;
        Some(config)
    } else {
        own
    }
}

/// The factor by which a device scrolls: its own, or the default one, or 1.
pub fn scroll_factor(device: &Option<InputConfig>, default: &InputConfig) -> (r: Float64)
    ensures
        r == factor_of(*device, *default),
{
    if let Some(config) = device {
        if let Some(factor) = scroll_or_unset(config).scroll_factor {
            return factor;
        }
    }
    match scroll_or_unset(default).scroll_factor {
        Some(factor) => factor,
        None => Float64 { bits: ONE_BITS },
    }
}

/// The factor by which a device scrolls: its own, or the default one, or 1.
pub open spec fn factor_of(device: Option<InputConfig>, default: InputConfig) -> Float64 {
    match (own_factor(device), scroll_of(default).scroll_factor) {
        (Some(factor), _) => factor,
        (None, Some(factor)) => factor,
        (None, None) => Float64 { bits: ONE_BITS },
    }
}

/// The factor that a device's own configuration gives.
pub open spec fn own_factor(device: Option<InputConfig>) -> Option<Float64> {
    match device {
        Some(config) => scroll_of(config).scroll_factor,
        None => None,
    }
}

/// The output that a device is mapped to: its own, or the default one.
pub fn map_to_output(device: &Option<InputConfig>, default: &InputConfig) -> (r: Option<String>)
    ensures
        text::optional_view(r) == output_of(*device, *default),
{
    if let Some(config) = device {
        if let Some(output) = &config.map_to_output {
            return Some(output.clone());
        }
    }
    match &default.map_to_output {
        Some(output) => Some(output.clone()),
        None => None,
    }
}

/// The output that a device is mapped to: its own, or the default one.
pub open spec fn output_of(device: Option<InputConfig>, default: InputConfig) -> Option<Seq<char>> {
    match own_output(device) {
        Some(output) => Some(output),
        None => text::optional_view(default.map_to_output),
    }
}

/// The output that a device's own configuration gives.
pub open spec fn own_output(device: Option<InputConfig>) -> Option<Seq<char>> {
    match device {
        Some(config) => text::optional_view(config.map_to_output),
        None => None,
    }
}

/// Whether two optional numbers are the same.
pub open spec fn same_float(a: Option<Float64>, b: Option<Float64>) -> bool {
    match (a, b) {
        (Some(x), Some(y)) => x.same(y),
        (None, None) => true,
        _ => false,
    }
}

/// Whether two optional numbers are the same.
fn float_eq(a: Option<Float64>, b: Option<Float64>) -> (r: bool)
    ensures
        r == same_float(a, b),
{
    match (a, b) {
        (Some(x), Some(y)) => x.equals(&y),
        (None, None) => true,
        _ => false,
    }
}

impl InputConfig {
    /// Whether two configurations say the same, numbers compared as numbers.
    pub open spec fn same(self, other: InputConfig) -> bool {
        &&& self.state == other.state
        &&& self.click_method == other.click_method
        &&& self.disable_while_typing == other.disable_while_typing
        &&& self.left_handed == other.left_handed
        &&& self.tap_config == other.tap_config
        &&& text::same_optional(self.map_to_output, other.map_to_output)
        &&& match (self.acceleration, other.acceleration) {
            (Some(a), Some(b)) => a.profile == b.profile && a.speed.same(b.speed),
            (None, None) => true,
            _ => false,
        }
        &&& match (self.scroll_config, other.scroll_config) {
            (Some(a), Some(b)) => a.method == b.method && a.natural_scroll == b.natural_scroll
                && a.scroll_button == b.scroll_button && same_float(
                a.scroll_factor,
                b.scroll_factor,
            ),
            (None, None) => true,
            _ => false,
        }
    }

    /// Whether two configurations say the same, numbers compared as numbers.
    pub fn equals(&self, other: &InputConfig) -> (r: bool)
        ensures
            r == self.same(*other),
    {
        let acceleration: bool = match (self.acceleration, other.acceleration) {
            (Some(a), Some(b)) => a.profile == b.profile && a.speed.equals(&b.speed),
            (None, None) => true,
            _ => false,
        };
        let scroll: bool = match (self.scroll_config, other.scroll_config) {
            (Some(a), Some(b)) => a.method == b.method && a.natural_scroll == b.natural_scroll
                && a.scroll_button == b.scroll_button && float_eq(a.scroll_factor, b.scroll_factor),
            (None, None) => true,
            _ => false,
        };
        acceleration && scroll && self.state == other.state && self.click_method
            == other.click_method && self.disable_while_typing == other.disable_while_typing
            && self.left_handed == other.left_handed && self.tap_config == other.tap_config
            && optional_eq(&self.map_to_output, &other.map_to_output)
    }
}

/// What is configured of acceleration and scrolling lies in the ranges that devices accept.
pub proof fn configured_values_are_in_range(
    section: Seq<(Seq<char>, TomlModel)>,
    document: Seq<(Seq<char>, TomlModel)>,
    input: InputConfig,
    f: Float64,
)
    requires
        value::table_at(document, "mouse"@) == Some(section),
        !f.is_nan(),
    ensures
        value::float_at(section, "acceleration"@) == Some(f) ==> {
            let speed = with_mouse(document, input).acceleration->0.speed;
            &&& !speed.less(Float64 { bits: MINUS_ONE_BITS })
            &&& !(Float64 { bits: ONE_BITS }).less(speed)
        },
        value::float_at(section, "scroll_speed"@) == Some(f) ==> {
            let factor = with_mouse(document, input).scroll_config->0.scroll_factor->0;
            &&& !factor.less(Float64 { bits: MIN_SCROLL_BITS })
            &&& !(Float64 { bits: MAX_SCROLL_BITS }).less(factor)
        },
{
}

} // verus!
