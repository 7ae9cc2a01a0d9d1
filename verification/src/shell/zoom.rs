//! The magnifier.

use crate::geometry;
use crate::geometry::{saturate, saturating_add, Point, Rectangle, Size};
use crate::number::{Float64, ONE_BITS};
use vstd::prelude::*;

verus! {

/// How the magnified view follows the pointer.
#[derive(Clone, Copy, Debug, PartialEq, Eq, Structural)]
pub enum ZoomMovement {
    Continuously,
    OnEdge,
    Centered,
}

/// The side of the square around the pointer that the view has to touch.
pub const POINTER_EXTENT: i32 = 16;

/// The state of the magnifier.
#[derive(Clone, Copy, Debug, PartialEq, Eq, Structural)]
pub struct ZoomState {
    pub seat: u64,
    pub show_overlay: bool,
    pub increment: u32,
    pub movement: ZoomMovement,
}

/// A position on an output.
#[derive(Clone, Copy, Debug, PartialEq, Eq, Structural)]
pub struct FocalPoint {
    pub x: Float64,
    pub y: Float64,
}

/// A magnification that changes since a time, in nanoseconds.
#[derive(Clone, Copy, Debug, PartialEq, Eq, Structural)]
pub struct PreviousLevel {
    pub level: Float64,
    pub start: u64,
}

/// A position that changes since a time, in nanoseconds.
#[derive(Clone, Copy, Debug, PartialEq, Eq, Structural)]
pub struct PreviousPoint {
    pub point: FocalPoint,
    pub start: u64,
}

/// The state of the magnifier on an output.
#[derive(Clone, Copy, Debug, PartialEq, Eq, Structural)]
pub struct OutputZoomState {
    pub level: Float64,
    /// Where the magnification comes from, while it changes.
    pub previous_level: Option<PreviousLevel>,
    pub focal_point: FocalPoint,
    /// Where the position comes from, while it changes.
    pub previous_point: Option<PreviousPoint>,
}

/// What is to be shown of a value that may be changing.
#[derive(Clone, Copy, Debug, PartialEq, Eq, Structural)]
pub enum Animated<T> {
    /// The value itself.
    Still(T),
    /// A value between two, by the time that has passed.
    Moving { from: T, to: T, elapsed: u64 },
}

/// The time from one moment to a later one; none where it is not later.
pub open spec fn elapsed(from: u64, to: u64) -> u64 {
    if to > from {
        (to - from) as u64
    } else {
        0
    }
}

/// The time from one moment to a later one; none where it is not later.
fn time_between(from: u64, to: u64) -> (r: u64)
    ensures
        r == elapsed(from, to),
{
    if to > from {
        to - from
    } else {
        0
    }
}

impl OutputZoomState {
    /// The magnifier with a magnification and a position, neither of which changes.
    pub fn new(level: Float64, focal_point: FocalPoint) -> (r: Self)
        ensures
            r == (OutputZoomState {
                level,
                previous_level: None,
                focal_point,
                previous_point: None,
            }),
    {
        OutputZoomState { level, previous_level: None, focal_point, previous_point: None }
    }

    /// The position to show, where a change takes the given time. A change that is over is
    /// forgotten.
    pub fn animating_focal_point(&mut self, now: u64, duration: u64) -> (r: Animated<FocalPoint>)
        ensures
            ({
                let over = old(self).previous_point matches Some(p) && elapsed(p.start, now)
                    > duration;
                &&& *final(self) == (OutputZoomState {
                    previous_point: if over {
                        None
                    } else {
                        old(self).previous_point
                    },
                    ..*old(self)
                })
                &&& r == match final(self).previous_point {
                    Some(p) => Animated::Moving {
                        from: p.point,
                        to: old(self).focal_point,
                        elapsed: elapsed(p.start, now),
                    },
                    None => Animated::Still(old(self).focal_point),
                }
            }),
    {
        match self.previous_point {
            Some(previous) => {
                let passed: u64 = time_between(previous.start, now);
                if passed > duration {
                    self.previous_point = None;
                    return Animated::Still(self.focal_point);
                }
                Animated::Moving { from: previous.point, to: self.focal_point, elapsed: passed }
            },
            None => Animated::Still(self.focal_point),
        }
    }

    /// The magnification to show.
    pub fn animating_level(&self, now: u64) -> (r: Animated<Float64>)
        ensures
            r == match self.previous_level {
                Some(p) => Animated::Moving {
                    from: p.level,
                    to: self.level,
                    elapsed: elapsed(p.start, now),
                },
                None => Animated::Still(self.level),
            },
    {
        match self.previous_level {
            Some(previous) => Animated::Moving {
                from: previous.level,
                to: self.level,
                elapsed: time_between(previous.start, now),
            },
            None => Animated::Still(self.level),
        }
    }

    /// The position.
    pub fn current_focal_point(&self) -> (r: FocalPoint)
        ensures
            r == self.focal_point,
    {
        self.focal_point
    }

    /// The magnification.
    pub fn current_level(&self) -> (r: Float64)
        ensures
            r == self.level,
    {
        self.level
    }

    /// Whether the magnification or the position changes.
    pub fn is_animating(&self) -> (r: bool)
        ensures
            r == (self.previous_point is Some || self.previous_level is Some),
    {
        self.previous_point.is_some() || self.previous_level.is_some()
    }

    /// Forgets a change of the magnification that is over; returns whether nothing is magnified
    /// any more.
    pub fn refresh(&mut self, now: u64, duration: u64) -> (r: bool)
        ensures
            *final(self) == (OutputZoomState {
                previous_level: match old(self).previous_level {
                    Some(p) if elapsed(p.start, now) > duration => None,
                    other => other,
                },
                ..*old(self)
            }),
            r == (final(self).level.same(Float64 { bits: ONE_BITS })
                && final(self).previous_level is None),
    {
        if let Some(previous) = self.previous_level {
            if time_between(previous.start, now) > duration {
                self.previous_level = None;
            }
        }
        self.level.equals(&Float64::from_bits(ONE_BITS)) && self.previous_level.is_none()
    }

    /// Changes the magnification, at once or from `shown`, what is shown now.
    pub fn update(&mut self, level: Float64, animate: bool, shown: Float64, now: u64)
        ensures
            *final(self) == (OutputZoomState {
                level,
                previous_level: if animate {
                    Some(PreviousLevel { level: shown, start: now })
                } else {
                    None
                },
                ..*old(self)
            }),
    {
        self.previous_level = if animate {
            Some(PreviousLevel { level: shown, start: now })
        } else {
            None
        };
        self.level = level;
    }
}

/// Whether two areas share a point, their edges included.
pub open spec fn touches(a: Rectangle, b: Rectangle) -> bool {
    &&& a.loc.x <= geometry::saturated(b.loc.x + b.size.w)
    &&& b.loc.x <= geometry::saturated(a.loc.x + a.size.w)
    &&& a.loc.y <= geometry::saturated(b.loc.y + b.size.h)
    &&& b.loc.y <= geometry::saturated(a.loc.y + a.size.h)
}

/// Whether two areas share a point, their edges included.
pub fn overlaps_or_touches(a: &Rectangle, b: &Rectangle) -> (r: bool)
    ensures
        r == touches(*a, *b),
{
    a.loc.x <= saturating_add(b.loc.x, b.size.w) && b.loc.x <= saturating_add(a.loc.x, a.size.w)
        && a.loc.y <= saturating_add(b.loc.y, b.size.h) && b.loc.y <= saturating_add(
        a.loc.y,
        a.size.h,
    )
}

/// Whether a point is in an area.
pub open spec fn inside(a: Rectangle, p: Point) -> bool {
    &&& a.loc.x <= p.x < geometry::saturated(a.loc.x + a.size.w)
    &&& a.loc.y <= p.y < geometry::saturated(a.loc.y + a.size.h)
}

/// Whether a point is in an area.
fn contains(a: &Rectangle, p: Point) -> (r: bool)
    ensures
        r == inside(*a, p),
{
    p.x >= a.loc.x && p.x < saturating_add(a.loc.x, a.size.w) && p.y >= a.loc.y && p.y
        < saturating_add(a.loc.y, a.size.h)
}

/// A quotient, rounded towards zero.
pub open spec fn quotient(a: int, b: int) -> int {
    if b > 0 {
        a / b
    } else {
        -(a / (-b))
    }
}

/// How much faster than the view its focal point moves: the width of the output by what of it
/// is not in view; 1 where all of it is.
pub open spec fn factor(output: Rectangle, view: Size) -> int {
    if output.size.w == view.w {
        1
    } else {
        quotient(output.size.w as int, output.size.w - view.w)
    }
}

/// A coordinate of the focal point, within an output that starts at `start` and has a length, for
/// which the view starts at `at`.
pub open spec fn focal_coordinate(start: int, length: int, at: int, factor: int) -> int {
    let scaled = geometry::saturated(geometry::saturated(at - start) * factor);
    let moved = geometry::saturated(scaled + start);
    let kept = if moved < start {
        start
    } else if moved > start + length - 1 {
        start + length - 1
    } else {
        moved
    };
    geometry::saturated(kept - start)
}

/// The focal point, relative to the output, for which the middle of the view is at the cursor.
pub open spec fn centered(output: Rectangle, view: Size, cursor: Point) -> Point {
    let k = factor(output, view);
    let at = cursor.minus(Point { x: (view.w / 2) as i32, y: (view.h / 2) as i32 });
    Point {
        x: focal_coordinate(output.loc.x as int, output.size.w as int, at.x as int, k) as i32,
        y: focal_coordinate(output.loc.y as int, output.size.h as int, at.y as int, k) as i32,
    }
}

/// Whether an output has an area, and a view a size, with which can be computed.
pub open spec fn usable(output: Rectangle, view: Size) -> bool {
    &&& output.size.w > 0
    &&& output.size.h > 0
    &&& view.w >= 0
    &&& view.h >= 0
    &&& output.loc.x + output.size.w - 1 <= i32::MAX
    &&& output.loc.y + output.size.h - 1 <= i32::MAX
}

/// How much faster than the view its focal point moves.
fn factor_of(output: &Rectangle, view: Size) -> (r: i64)
    requires
        usable(*output, view),
    ensures
        r == factor(*output, view),
        -i32::MAX <= r <= i32::MAX,
{
    let width: i64 = output.size.w as i64;
    let hidden: i64 = width - view.w as i64;
    if hidden == 0 {
        return 1;
    }
    if hidden > 0 {
        assert(0 <= width as int / (hidden as int) <= width) by (nonlinear_arith)
            requires
                width > 0,
                hidden > 0,
        ;
        width / hidden
    } else {
        let beyond: i64 = -hidden;
        assert(0 <= width as int / (beyond as int) <= width) by (nonlinear_arith)
            requires
                width > 0,
                beyond > 0,
        ;
        -(width / beyond)
    }
}

/// A coordinate of the focal point.
fn focal_at(start: i32, length: i32, at: i32, factor: i64) -> (r: i32)
    requires
        length > 0,
        start + length - 1 <= i32::MAX,
        -i32::MAX <= factor <= i32::MAX,
    ensures
        r == focal_coordinate(start as int, length as int, at as int, factor as int),
        0 <= r < length,
{
    let local: i64 = saturate(at as i64 - start as i64) as i64;
    assert(-0x4000_0000_0000_0000 <= local * factor <= 0x4000_0000_0000_0000) by (nonlinear_arith)
        requires
            -0x8000_0000 <= local <= 0x7fff_ffff,
            -0x7fff_ffff <= factor <= 0x7fff_ffff,
    ;
    let scaled: i64 = saturate(local * factor) as i64;
    let moved: i32 = saturate(scaled + start as i64);
    let last: i32 = start + (length - 1);
    let kept: i32 = if moved < start {
        start
    } else if moved > last {
        last
    } else {
        moved
    };
    kept - start
}

/// The focal point for which the middle of the view is at the cursor.
fn center_on(output: &Rectangle, view: Size, cursor: Point) -> (r: Point)
    requires
        usable(*output, view),
    ensures
        r == centered(*output, view, cursor),
{
    let k: i64 = factor_of(output, view);
    let at: Point = cursor.relative_to(Point { x: view.w / 2, y: view.h / 2 });
    Point {
        x: focal_at(output.loc.x, output.size.w, at.x, k),
        y: focal_at(output.loc.y, output.size.h, at.y, k),
    }
}

/// Where the focal point goes.
#[derive(Clone, Copy, Debug, PartialEq, Eq, Structural)]
pub enum FocalTarget {
    /// It stays.
    Stay,
    /// To a position relative to the output.
    At(Point),
    /// By a distance times the magnification, as far as the output goes.
    Shift { by: Point },
}

/// How the focal point changes.
#[derive(Clone, Copy, Debug, PartialEq, Eq, Structural)]
pub struct FocalUpdate {
    /// Whether it changes over a while.
    pub animate: bool,
    pub target: FocalTarget,
}

/// The area around a pointer that the view has to touch.
pub open spec fn pointer_at(original: Point) -> Rectangle {
    Rectangle { loc: original, size: Size { w: POINTER_EXTENT, h: POINTER_EXTENT } }
}

/// How the focal point changes where the view follows the pointer only at its edges.
pub open spec fn edge_update(output: Rectangle, view: Rectangle, cursor: Point, original: Point) -> (
    bool,
    FocalTarget,
) {
    if !touches(view, pointer_at(original)) {
        (true, FocalTarget::At(centered(output, view.size, cursor)))
    } else if !inside(view, cursor) {
        (false, FocalTarget::Shift { by: cursor.minus(original) })
    } else {
        (false, FocalTarget::Stay)
    }
}

/// The position of the cursor, found again from its position relative to the output.
pub open spec fn found_again(output: Rectangle, cursor: Point) -> Point {
    cursor.minus(output.loc).plus(output.loc)
}

impl ZoomState {
    /// The seat whose pointer the view follows.
    pub fn current_seat(&self) -> (r: u64)
        ensures
            r == self.seat,
    {
        self.seat
    }

    /// The pointer moved from `original` to `cursor`, both rounded to whole pixels; returns how
    /// the focal point of the view of an output changes. A change of how the view follows the
    /// pointer takes a while, and so does a jump to a pointer that was out of view.
    pub fn update_focal_point(
        &mut self,
        output: Rectangle,
        view: Rectangle,
        cursor: Point,
        original: Point,
        movement: ZoomMovement,
    ) -> (r: FocalUpdate)
        requires
            (movement == ZoomMovement::Centered || (movement == ZoomMovement::OnEdge && !touches(
                view,
                pointer_at(original),
            ))) ==> usable(output, view.size),
            movement == ZoomMovement::OnEdge && !touches(view, pointer_at(original))
                ==> output.size.w != view.size.w,
        ensures
            *final(self) == (ZoomState { movement, ..*old(self) }),
            ({
                let changed = old(self).movement != movement;
                let (jump, target) = match movement {
                    ZoomMovement::Continuously => (
                        false,
                        FocalTarget::At(cursor.minus(output.loc)),
                    ),
                    ZoomMovement::OnEdge => edge_update(
                        output,
                        view,
                        found_again(output, cursor),
                        original,
                    ),
                    ZoomMovement::Centered => (
                        false,
                        FocalTarget::At(
                            centered(output, view.size, found_again(output, cursor)),
                        ),
                    ),
                };
                r == FocalUpdate { animate: changed || jump, target }
            }),
    {
        let mut animate: bool = false;
        if self.movement != movement {
            animate = true;
            self.movement = movement;
        }
        let local: Point = cursor.relative_to(output.loc);
        let global: Point = local.offset_by(output.loc);
        let target: FocalTarget = match movement {
            ZoomMovement::Continuously => FocalTarget::At(local),
            ZoomMovement::OnEdge => {
                let pointer = Rectangle {
                    loc: original,
                    size: Size { w: POINTER_EXTENT, h: POINTER_EXTENT },
                };
                if !overlaps_or_touches(&view, &pointer) {
                    animate = true;
                    FocalTarget::At(center_on(&output, view.size, global))
                } else if !contains(&view, global) {
                    FocalTarget::Shift { by: global.relative_to(original) }
                } else {
                    FocalTarget::Stay
                }
            },
            ZoomMovement::Centered => FocalTarget::At(center_on(&output, view.size, global)),
        };
        FocalUpdate { animate, target }
    }
}

/// The focal point for which the middle of the view is at the cursor is on the output, wherever
/// the cursor is.
pub proof fn the_focal_point_is_on_the_output(output: Rectangle, view: Size, cursor: Point)
    requires
        usable(output, view),
    ensures
        0 <= centered(output, view, cursor).x < output.size.w,
        0 <= centered(output, view, cursor).y < output.size.h,
{
}

/// A cursor that stays in view does not move the view, where the view follows the pointer only
/// at its edges.
pub proof fn a_cursor_in_view_does_not_move_it(
    output: Rectangle,
    view: Rectangle,
    cursor: Point,
    original: Point,
)
    requires
        inside(view, cursor),
        inside(view, original),
    ensures
        edge_update(output, view, cursor, original) == (false, FocalTarget::Stay),
{
}

} // verus!
