//! State that the compositor keeps between sessions.

use crate::config::output::comp::{OutputInfo, OutputsConfig};
use crate::order;
use vstd::prelude::*;

verus! {

/// The last state of Num Lock.
#[derive(Clone, Copy, Debug, PartialEq, Eq, Structural)]
pub struct NumlockStateConfig {
    pub last_state: bool,
}

impl Default for NumlockStateConfig {
    /// Num Lock off.
    fn default() -> (r: Self)
        ensures
            !r.last_state,
    {
        NumlockStateConfig { last_state: false }
    }
}

/// A filter for the colours of the screen.
#[derive(Clone, Copy, Debug, PartialEq, Eq, Structural)]
pub enum ColorFilter {
    Greyscale,
    Protanopia,
    Deuteranopia,
    Tritanopia,
}

impl ColorFilter {
    /// The number by which the shader knows the filter.
    pub open spec fn number(self) -> u8 {
        match self {
            ColorFilter::Greyscale => 1,
            ColorFilter::Protanopia => 2,
            ColorFilter::Deuteranopia => 3,
            ColorFilter::Tritanopia => 4,
        }
    }

    /// The number by which the shader knows the filter.
    pub fn code(self) -> (r: u8)
        ensures
            r == self.number(),
    {
        match self {
            ColorFilter::Greyscale => 1,
            ColorFilter::Protanopia => 2,
            ColorFilter::Deuteranopia => 3,
            ColorFilter::Tritanopia => 4,
        }
    }
}

/// How the picture on the screen is changed for accessibility.
#[derive(Clone, Copy, Debug, PartialEq, Eq, Structural)]
pub struct ScreenFilter {
    pub inverted: bool,
    pub color_filter: Option<ColorFilter>,
}

impl Default for ScreenFilter {
    /// No change.
    fn default() -> (r: Self)
        ensures
            r == (ScreenFilter { inverted: false, color_filter: None }),
    {
        ScreenFilter { inverted: false, color_filter: None }
    }
}

impl ScreenFilter {
    /// Whether the picture stays as it is.
    pub fn is_noop(&self) -> (r: bool)
        ensures
            r == (*self == ScreenFilter { inverted: false, color_filter: None }),
    {
        !self.inverted && self.color_filter.is_none()
    }
}

/// What became of reading a file with stored state.
#[derive(Debug, PartialEq, Eq)]
pub enum StoredState<T> {
    /// There is no such file.
    Missing,
    /// The file does not hold such state.
    Broken,
    /// The file holds the state.
    Read(T),
}

impl<T> StoredState<T> {
    /// Whether the file is removed: it is where it does not hold what it should.
    pub fn removes_file(&self) -> (r: bool)
        ensures
            r == (self is Broken),
    {
        match self {
            StoredState::Broken => true,
            _ => false,
        }
    }
}

/// The state of Num Lock to start with: the stored one, or off.
pub fn load_numlock(stored: StoredState<NumlockStateConfig>) -> (r: NumlockStateConfig)
    ensures
        r == match stored {
            StoredState::Read(state) => state,
            _ => NumlockStateConfig { last_state: false },
        },
{
    match stored {
        StoredState::Read(state) => state,
        _ => NumlockStateConfig::default(),
    }
}

/// The screen filter to start with: the stored one, or none.
pub fn load_filter_state(stored: StoredState<ScreenFilter>) -> (r: ScreenFilter)
    ensures
        r == match stored {
            StoredState::Read(filter) => filter,
            _ => ScreenFilter { inverted: false, color_filter: None },
        },
{
    match stored {
        StoredState::Read(filter) => filter,
        _ => ScreenFilter::default(),
    }
}

/// State that is kept between sessions, each part with the path of the file that keeps it. A
/// part without a path is not kept.
#[derive(Debug, PartialEq, Eq)]
pub struct DynamicConfig {
    pub outputs: (Option<String>, OutputsConfig),
    pub numlock: (Option<String>, NumlockStateConfig),
    pub accessibility_filter: (Option<String>, ScreenFilter),
}

/// What is stored between sessions, from what has been found in its files.
pub fn load_dynamic(
    outputs: (Option<String>, OutputsConfig),
    numlock: (Option<String>, StoredState<NumlockStateConfig>),
    filter: (Option<String>, StoredState<ScreenFilter>),
) -> (r: DynamicConfig)
    ensures
        r.outputs == outputs,
        r.numlock.0 == numlock.0,
        r.numlock.1 == match numlock.1 {
            StoredState::Read(state) => state,
            _ => NumlockStateConfig { last_state: false },
        },
        r.accessibility_filter.0 == filter.0,
        r.accessibility_filter.1 == match filter.1 {
            StoredState::Read(filter) => filter,
            _ => ScreenFilter { inverted: false, color_filter: None },
        },
{
    DynamicConfig {
        outputs,
        numlock: (numlock.0, load_numlock(numlock.1)),
        accessibility_filter: (filter.0, load_filter_state(filter.1)),
    }
}

impl DynamicConfig {
    /// The configurations of the outputs.
    pub fn outputs(&self) -> (r: &OutputsConfig)
        ensures
            *r == self.outputs.1,
    {
        &self.outputs.1
    }

    /// The configurations of the outputs, to change them.
    pub fn outputs_mut(&mut self) -> (r: &mut OutputsConfig)
        ensures
            *r == old(self).outputs.1,
            *final(self) == (DynamicConfig {
                outputs: (old(self).outputs.0, *final(r)),
                ..*old(self)
            }),
    {
        &mut self.outputs.1
    }

    /// The last state of Num Lock.
    pub fn numlock(&self) -> (r: &NumlockStateConfig)
        ensures
            *r == self.numlock.1,
    {
        &self.numlock.1
    }

    /// The last state of Num Lock, to change it.
    pub fn numlock_mut(&mut self) -> (r: &mut NumlockStateConfig)
        ensures
            *r == old(self).numlock.1,
            *final(self) == (DynamicConfig {
                numlock: (old(self).numlock.0, *final(r)),
                ..*old(self)
            }),
    {
        &mut self.numlock.1
    }

    /// The screen filter.
    pub fn screen_filter(&self) -> (r: &ScreenFilter)
        ensures
            *r == self.accessibility_filter.1,
    {
        &self.accessibility_filter.1
    }

    /// The screen filter, to change it.
    pub fn screen_filter_mut(&mut self) -> (r: &mut ScreenFilter)
        ensures
            *r == old(self).accessibility_filter.1,
            *final(self) == (DynamicConfig {
                accessibility_filter: (old(self).accessibility_filter.0, *final(r)),
                ..*old(self)
            }),
    {
        &mut self.accessibility_filter.1
    }
}

/// What identifies an output that is present.
#[derive(Debug, PartialEq, Eq)]
pub struct CompOutputInfo(pub OutputInfo);

impl CompOutputInfo {
    /// What identifies the output with the given name and physical properties.
    pub fn from_properties(name: String, make: String, model: String) -> (r: Self)
        ensures
            r.0@ == (order::KeyModel { first: name@, second: make@, third: model@ }),
    {
        CompOutputInfo(OutputInfo { connector: name, make, model })
    }
}

/// The shader tells the filters apart, and each from no filter, which is zero.
pub proof fn filter_numbers_are_distinct(a: ColorFilter, b: ColorFilter)
    ensures
        a.number() != 0,
        a.number() == b.number() ==> a == b,
{
}

} // verus!
