//! Integer points, sizes and rectangles, with saturating arithmetic.

use vstd::prelude::*;

verus! {

/// A position in integer coordinates.
#[derive(Clone, Copy, Debug, PartialEq, Eq, Structural)]
pub struct Point {
    pub x: i32,
    pub y: i32,
}

/// A size in integer units.
#[derive(Clone, Copy, Debug, PartialEq, Eq, Structural)]
pub struct Size {
    pub w: i32,
    pub h: i32,
}

/// An axis-aligned rectangle: its top left corner and its size.
#[derive(Clone, Copy, Debug, PartialEq, Eq, Structural)]
pub struct Rectangle {
    pub loc: Point,
    pub size: Size,
}

/// A fractional position, given by the integers next to each coordinate.
///
/// For an integer bound `b` a coordinate is below `b` exactly when its floor is, and above `b`
/// exactly when its ceiling is.
#[derive(Clone, Copy, Debug, PartialEq, Eq, Structural)]
pub struct Position {
    pub x_floor: i32,
    pub x_ceil: i32,
    pub y_floor: i32,
    pub y_ceil: i32,
}

/// The nearest value of `i32`.
pub open spec fn saturated(v: int) -> int {
    if v > i32::MAX {
        i32::MAX as int
    } else if v < i32::MIN {
        i32::MIN as int
    } else {
        v
    }
}

/// The nearest value of `i32`.
pub fn saturate(v: i64) -> (r: i32)
    ensures
        r == saturated(v as int),
{
    if v > i32::MAX as i64 {
        i32::MAX
    } else if v < i32::MIN as i64 {
        i32::MIN
    } else {
        v as i32
    }
}

/// The sum of two coordinates, at the bounds of `i32` where it would leave them.
pub fn saturating_add(a: i32, b: i32) -> (r: i32)
    ensures
        r == saturated(a + b),
{
    saturate(a as i64 + b as i64)
}

/// The difference of two coordinates, at the bounds of `i32` where it would leave them.
pub fn saturating_sub(a: i32, b: i32) -> (r: i32)
    ensures
        r == saturated(a - b),
{
    saturate(a as i64 - b as i64)
}

/// The larger of two numbers.
pub open spec fn larger(a: int, b: int) -> int {
    if a >= b {
        a
    } else {
        b
    }
}

/// The smaller of two numbers.
pub open spec fn smaller(a: int, b: int) -> int {
    if a <= b {
        a
    } else {
        b
    }
}

/// The larger of two coordinates.
pub fn max_i32(a: i32, b: i32) -> (r: i32)
    ensures
        r == larger(a as int, b as int),
{
    if a >= b {
        a
    } else {
        b
    }
}

/// The smaller of two coordinates.
pub fn min_i32(a: i32, b: i32) -> (r: i32)
    ensures
        r == smaller(a as int, b as int),
{
    if a <= b {
        a
    } else {
        b
    }
}

impl Point {
    /// The point moved by `other`.
    pub open spec fn plus(self, other: Point) -> Point {
        Point { x: saturated(self.x + other.x) as i32, y: saturated(self.y + other.y) as i32 }
    }

    /// The point moved back by `other`.
    pub open spec fn minus(self, other: Point) -> Point {
        Point { x: saturated(self.x - other.x) as i32, y: saturated(self.y - other.y) as i32 }
    }

    /// The point moved by `other`.
    pub fn offset_by(self, other: Point) -> (r: Point)
        ensures
            r == self.plus(other),
    {
        Point { x: saturating_add(self.x, other.x), y: saturating_add(self.y, other.y) }
    }

    /// The point relative to `other`.
    pub fn relative_to(self, other: Point) -> (r: Point)
        ensures
            r == self.minus(other),
    {
        Point { x: saturating_sub(self.x, other.x), y: saturating_sub(self.y, other.y) }
    }
}

impl Size {
    /// The size grown by `other`.
    pub open spec fn plus(self, other: Size) -> Size {
        Size { w: saturated(self.w + other.w) as i32, h: saturated(self.h + other.h) as i32 }
    }

    /// The size grown by `other`.
    pub fn grow(self, other: Size) -> (r: Size)
        ensures
            r == self.plus(other),
    {
        Size { w: saturating_add(self.w, other.w), h: saturating_add(self.h, other.h) }
    }

    /// The larger width and the larger height of the two.
    pub open spec fn union(self, other: Size) -> Size {
        Size {
            w: larger(self.w as int, other.w as int) as i32,
            h: larger(self.h as int, other.h as int) as i32,
        }
    }

    /// The larger width and the larger height of the two.
    pub fn max_of(self, other: Size) -> (r: Size)
        ensures
            r == self.union(other),
    {
        Size { w: max_i32(self.w, other.w), h: max_i32(self.h, other.h) }
    }
}

/// A number within the bounds stays, and one beyond them becomes the bound next to it.
pub proof fn saturating_gives_the_nearest_number(v: int, w: int)
    ensures
        -0x8000_0000 <= saturated(v) <= 0x7fff_ffff,
        -0x8000_0000 <= v <= 0x7fff_ffff ==> saturated(v) == v,
        v > 0x7fff_ffff ==> saturated(v) == 0x7fff_ffff,
        v < -0x8000_0000 ==> saturated(v) == -0x8000_0000,
        v <= w ==> saturated(v) <= saturated(w),
{
}

/// The larger and the smaller of two numbers are the two, in their order.
pub proof fn larger_and_smaller_are_the_two(a: int, b: int)
    ensures
        smaller(a, b) <= a <= larger(a, b),
        smaller(a, b) <= b <= larger(a, b),
        smaller(a, b) + larger(a, b) == a + b,
{
}

/// Moving a point and moving it back are each other's opposite, coordinate by coordinate, where
/// no bound is reached.
pub proof fn moving_back_undoes_moving(p: Point, q: Point)
    requires
        i32::MIN <= p.x + q.x <= i32::MAX,
        i32::MIN <= p.y + q.y <= i32::MAX,
    ensures
        p.plus(q).x - p.x == q.x,
        p.plus(q).y - p.y == q.y,
        p.plus(q).minus(q) == p,
{
}

/// A grown size differs by what it has grown, where no bound is reached, and the size that covers
/// two is the least one that is not smaller than either.
pub proof fn sizes_grow_in_both_directions(a: Size, b: Size, c: Size)
    ensures
        i32::MIN <= a.w + b.w <= i32::MAX ==> a.plus(b).w == a.w + b.w,
        i32::MIN <= a.h + b.h <= i32::MAX ==> a.plus(b).h == a.h + b.h,
        a.w <= a.union(b).w && b.w <= a.union(b).w && a.h <= a.union(b).h && b.h <= a.union(b).h,
        a.w <= c.w && b.w <= c.w && a.h <= c.h && b.h <= c.h ==> a.union(b).w <= c.w && a.union(
            b,
        ).h <= c.h,
{
}

} // verus!
