//! Floating-point numbers that are carried and compared, but not computed with.

use vstd::prelude::*;

verus! {

/// A 64-bit floating-point number, given by its bits in the IEEE 754 binary64 encoding.
#[derive(Clone, Copy, Debug, PartialEq, Eq, Structural)]
pub struct Float64 {
    pub bits: u64,
}

/// The sign bit.
pub const SIGN_BIT: u64 = 0x8000_0000_0000_0000;

/// The magnitude of infinity; the magnitudes above it are not numbers.
pub const INFINITE_MAGNITUDE: u64 = 0x7FF0_0000_0000_0000;

/// The bits of 1.
pub const ONE_BITS: u64 = 0x3FF0_0000_0000_0000;

/// The bits of -1.
pub const MINUS_ONE_BITS: u64 = 0xBFF0_0000_0000_0000;

/// A 32-bit floating-point number, given by its bits in the IEEE 754 binary32 encoding.
#[derive(Clone, Copy, Debug, PartialEq, Eq, Structural)]
pub struct Float32 {
    pub bits: u32,
}

/// The bits of 1 in 32 bits.
pub const SINGLE_ONE_BITS: u32 = 0x3F80_0000;

impl Float64 {
    /// The bits without the sign.
    pub open spec fn magnitude(self) -> int {
        if self.bits >= SIGN_BIT {
            self.bits - SIGN_BIT
        } else {
            self.bits as int
        }
    }

    /// Whether the value is not a number.
    pub open spec fn is_nan(self) -> bool {
        self.magnitude() > INFINITE_MAGNITUDE
    }

    /// A number that orders the values as they are ordered; both zeros have the same.
    pub open spec fn order(self) -> int {
        if self.bits >= SIGN_BIT {
            -self.magnitude()
        } else {
            self.magnitude()
        }
    }

    /// Whether the value is below another. What is not a number is below nothing, nor above.
    pub open spec fn less(self, other: Float64) -> bool {
        !self.is_nan() && !other.is_nan() && self.order() < other.order()
    }

    /// Whether the two are the same number. What is not a number is not even the same as itself.
    pub open spec fn same(self, other: Float64) -> bool {
        !self.is_nan() && !other.is_nan() && self.order() == other.order()
    }

    /// The value, or the bound that it exceeds.
    pub open spec fn clamped(self, low: Float64, high: Float64) -> Float64 {
        if self.less(low) {
            low
        } else if high.less(self) {
            high
        } else {
            self
        }
    }

    /// The number with the given bits.
    pub fn from_bits(bits: u64) -> (r: Float64)
        ensures
            r.bits == bits,
    {
        Float64 { bits }
    }

    /// A number that orders the values, and whether the value is a number at all.
    fn key(&self) -> (r: (i64, bool))
        ensures
            r.0 == self.order(),
            r.1 == !self.is_nan(),
    {
        if self.bits >= SIGN_BIT {
            let magnitude: u64 = self.bits - SIGN_BIT;
            (-(magnitude as i64), magnitude <= INFINITE_MAGNITUDE)
        } else {
            (self.bits as i64, self.bits <= INFINITE_MAGNITUDE)
        }
    }

    /// Whether the value is below another.
    pub fn is_less(&self, other: &Float64) -> (r: bool)
        ensures
            r == self.less(*other),
    {
        let (a, a_number) = self.key();
        let (b, b_number) = other.key();
        a_number && b_number && a < b
    }

    /// Whether the value is at most another.
    pub fn is_at_most(&self, other: &Float64) -> (r: bool)
        ensures
            r == (self.less(*other) || self.same(*other)),
    {
        let (a, a_number) = self.key();
        let (b, b_number) = other.key();
        a_number && b_number && a <= b
    }

    /// Whether the two are the same number.
    pub fn equals(&self, other: &Float64) -> (r: bool)
        ensures
            r == self.same(*other),
    {
        let (a, a_number) = self.key();
        let (b, b_number) = other.key();
        a_number && b_number && a == b
    }

    /// The value, or the bound that it exceeds.
    pub fn clamp(self, low: Float64, high: Float64) -> (r: Float64)
        ensures
            r == self.clamped(low, high),
    {
        if self.is_less(&low) {
            low
        } else if high.is_less(&self) {
            high
        } else {
            self
        }
    }
}

/// A clamped number lies between the bounds, and clamping it again changes nothing.
pub proof fn clamped_is_within_bounds(v: Float64, low: Float64, high: Float64)
    requires
        low.less(high),
        !v.is_nan(),
    ensures
        !v.clamped(low, high).less(low),
        !high.less(v.clamped(low, high)),
        v.clamped(low, high).clamped(low, high) == v.clamped(low, high),
{
}

/// Numbers are ordered by their magnitude, the other way round below zero, and the negative ones
/// come before the others. What is not a number is neither below nor above anything.
pub proof fn numbers_are_ordered_by_sign_and_magnitude(a: Float64, b: Float64)
    requires
        a.bits % SIGN_BIT <= INFINITE_MAGNITUDE,
        b.bits % SIGN_BIT <= INFINITE_MAGNITUDE,
    ensures
        a.bits < SIGN_BIT && b.bits < SIGN_BIT ==> a.less(b) == (a.bits < b.bits),
        a.bits >= SIGN_BIT && b.bits >= SIGN_BIT ==> a.less(b) == (a.bits > b.bits),
        a.bits >= SIGN_BIT && b.bits < SIGN_BIT ==> !b.less(a) && a.less(b) == (a.bits != SIGN_BIT
            || b.bits != 0),
        a.same(b) == (!a.less(b) && !b.less(a)),
        a.same(b) <==> a.bits == b.bits || (a.bits % SIGN_BIT == 0 && b.bits % SIGN_BIT == 0),
{
}

/// What is not a number is neither below, nor above, nor the same as anything.
pub proof fn what_is_no_number_is_not_compared(a: Float64, b: Float64)
    requires
        a.bits % SIGN_BIT > INFINITE_MAGNITUDE,
    ensures
        !a.less(b) && !b.less(a) && !a.same(b) && !b.same(a),
        a.clamped(b, b) == a,
{
}

/// Clamping keeps a number between the bounds, and gives the nearer bound for one beyond.
pub proof fn clamping_gives_the_nearest_number(v: Float64, low: Float64, high: Float64)
    requires
        low.less(high),
    ensures
        !v.less(low) && !high.less(v) ==> v.clamped(low, high) == v,
        v.less(low) ==> v.clamped(low, high) == low,
        high.less(v) ==> v.clamped(low, high) == high,
{
}

} // verus!
