//! How the magnified view follows the pointer.

use crate::geometry::{Point, Rectangle, Size};
use crate::shell::zoom;
use crate::shell::zoom::FocalTarget;
use vstd::prelude::*;

verus! {

/// Two areas touch each other or neither does.
pub proof fn touching_is_mutual(a: Rectangle, b: Rectangle)
    ensures
        zoom::touches(a, b) == zoom::touches(b, a),
        a.size.w >= 0 && a.size.h >= 0 ==> zoom::touches(a, a),
{
}

/// Areas touch where one of the two has a point of the other, their edges included.
pub proof fn areas_that_share_a_point_touch(a: Rectangle, b: Rectangle, x: int, y: int)
    requires
        a.loc.x <= x <= a.loc.x + a.size.w,
        a.loc.y <= y <= a.loc.y + a.size.h,
        b.loc.x <= x <= b.loc.x + b.size.w,
        b.loc.y <= y <= b.loc.y + b.size.h,
        i32::MIN <= x <= i32::MAX,
        i32::MIN <= y <= i32::MAX,
    ensures
        zoom::touches(a, b),
{
}

/// Areas with a gap between them do not touch.
pub proof fn areas_with_a_gap_do_not_touch(a: Rectangle, b: Rectangle)
    requires
        a.loc.x + a.size.w <= i32::MAX,
        a.loc.y + a.size.h <= i32::MAX,
        a.size.w >= 0 && a.size.h >= 0,
        a.loc.x + a.size.w < b.loc.x || a.loc.y + a.size.h < b.loc.y,
    ensures
        !zoom::touches(a, b),
        !zoom::touches(b, a),
{
}

/// A point is in an area from its top left corner to before its end.
pub proof fn points_are_inside_before_the_end(a: Rectangle, p: Point)
    requires
        a.loc.x + a.size.w <= i32::MAX,
        a.loc.y + a.size.h <= i32::MAX,
        a.size.w >= 0 && a.size.h >= 0,
    ensures
        zoom::inside(a, p) <==> 0 <= p.x - a.loc.x && p.x - a.loc.x < a.size.w && 0 <= p.y - a.loc.y
            && p.y - a.loc.y < a.size.h,
{
}

/// Time does not run backwards.
pub proof fn time_that_has_passed_is_counted(from: u64, to: u64)
    ensures
        from <= to ==> from + zoom::elapsed(from, to) == to,
        to < from ==> zoom::elapsed(from, to) == 0,
{
}

/// The focal point moves as much faster than the view as the output is wider than the part of it
/// that is not in view.
pub proof fn the_factor_is_the_output_by_what_is_not_in_view(
    output: Rectangle,
    view: Size,
    k: int,
)
    requires
        output.size.w > view.w,
        view.w >= 0,
        k > 0,
        k * (output.size.w - view.w) == output.size.w,
    ensures
        zoom::factor(output, view) == k,
{
    let rest = output.size.w - view.w;
    assert((k * rest) / rest == k) by (nonlinear_arith)
        requires
            rest > 0,
    ;
}

/// A view of the same width as its output is followed one to one.
pub proof fn a_view_of_all_is_followed_one_to_one(output: Rectangle, view: Size)
    requires
        output.size.w == view.w,
    ensures
        zoom::factor(output, view) == 1,
{
}

/// Half of an output is in view around the cursor: the focal point is twice as far from the
/// middle of the first half as the cursor is, and on the output in any case.
pub proof fn half_of_the_output_is_centered_on_the_cursor(
    output: Rectangle,
    view: Size,
    cursor: Point,
)
    requires
        output.loc.x == 0 && output.loc.y == 0,
        output.size.w == 2 * view.w,
        0 < view.w && 0 < output.size.h,
        0 <= view.h,
        0 <= cursor.x < output.size.w,
        0 <= cursor.y < output.size.h,
    ensures
        ({
            let p = zoom::centered(output, view, cursor);
            let x = 2 * (cursor.x - view.w / 2);
            let y = 2 * (cursor.y - view.h / 2);
            &&& p.x == if x < 0 {
                0
            } else if x > output.size.w - 1 {
                output.size.w - 1
            } else {
                x
            }
            &&& p.y == if y < 0 {
                0
            } else if y > output.size.h - 1 {
                output.size.h - 1
            } else {
                y
            }
        }),
{
    assert(2 * (output.size.w - view.w) == output.size.w);
    the_factor_is_the_output_by_what_is_not_in_view(output, view, 2);
}

/// Where the view follows the pointer at its edges: a pointer that was out of view is jumped to,
/// one that leaves the view shifts it by as much as it moved, and one in view leaves it alone.
pub proof fn the_view_is_shifted_at_its_edges(
    output: Rectangle,
    view: Rectangle,
    cursor: Point,
    original: Point,
)
    requires
        view.size.w >= 0 && view.size.h >= 0,
        view.loc.x + view.size.w <= i32::MAX,
        view.loc.y + view.size.h <= i32::MAX,
        original.x + 16 <= i32::MAX,
        original.y + 16 <= i32::MAX,
        i32::MIN <= cursor.x - original.x <= i32::MAX,
        i32::MIN <= cursor.y - original.y <= i32::MAX,
    ensures
        ({
            let (jump, target) = zoom::edge_update(output, view, cursor, original);
            let seen = view.loc.x <= original.x + 16 && original.x <= view.loc.x + view.size.w
                && view.loc.y <= original.y + 16 && original.y <= view.loc.y + view.size.h;
            let stays = view.loc.x <= cursor.x && cursor.x < view.loc.x + view.size.w && view.loc.y
                <= cursor.y && cursor.y < view.loc.y + view.size.h;
            &&& jump == !seen
            &&& !seen ==> target is At
            &&& seen && !stays ==> (target matches FocalTarget::Shift { by } && by.x == cursor.x
                - original.x && by.y == cursor.y - original.y)
            &&& seen && stays ==> target is Stay
        }),
{
}

/// The position of the cursor is found again from its position relative to the output.
pub proof fn the_cursor_is_found_again(output: Rectangle, cursor: Point)
    requires
        i32::MIN <= cursor.x - output.loc.x <= i32::MAX,
        i32::MIN <= cursor.y - output.loc.y <= i32::MAX,
    ensures
        zoom::found_again(output, cursor) == cursor,
{
}

} // verus!
