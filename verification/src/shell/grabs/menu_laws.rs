//! Where menus are placed.

use crate::geometry::{Point, Size};
use crate::shell::grabs::menu;
use crate::shell::grabs::menu::AxisAlignment;
use vstd::prelude::*;

verus! {

/// Half of a length is as long as the other half, or one longer.
pub proof fn halves_make_a_whole(length: int)
    ensures
        length >= 0 ==> 2 * menu::half(length) == length || 2 * menu::half(length) == length + 1,
        menu::half(-length) == -menu::half(length),
{
}

/// A place has the size of the menu, for every way to place it.
pub proof fn every_place_has_the_size_of_the_menu(
    position: Point,
    size: Size,
    x: AxisAlignment,
    y: AxisAlignment,
    i: int,
)
    requires
        0 <= i < menu::places(position, size, x, y).len(),
    ensures
        menu::places(position, size, x, y)[i].size == size,
{
}

/// A menu with its middle at the position on both axes has one place, with as much of it on
/// either side of the position, up to one.
pub proof fn centered_menus_are_around_the_position(position: Point, size: Size)
    requires
        size.w >= 0 && size.h >= 0,
        i32::MIN <= position.x - size.w - 1,
        i32::MIN <= position.y - size.h - 1,
    ensures
        ({
            let all = menu::places(position, size, AxisAlignment::Centered, AxisAlignment::Centered);
            let left = position.x - all[0].loc.x;
            let up = position.y - all[0].loc.y;
            &&& all.len() == 1
            &&& left == size.w - left || left == size.w - left + 1
            &&& up == size.h - up || up == size.h - up + 1
        }),
{
}

/// A menu with its middle at the position on the horizontal axis is below the position at the
/// distance, or else above it with its end at the distance.
pub proof fn menus_go_below_or_above(position: Point, size: Size, distance: u32)
    requires
        distance <= i32::MAX,
        size.w >= 0 && size.h >= 0,
        i32::MIN <= position.x - size.w - 1,
        i32::MIN <= position.y - size.h - distance,
        position.y + distance <= i32::MAX,
    ensures
        ({
            let all = menu::places(
                position,
                size,
                AxisAlignment::Centered,
                AxisAlignment::Corner(distance),
            );
            let left = position.x - all[0].loc.x;
            &&& all.len() == 2
            &&& all[0].loc.y - position.y == distance
            &&& position.y - (all[1].loc.y + size.h) == distance
            &&& all[0].loc.x == all[1].loc.x
            &&& left == size.w - left || left == size.w - left + 1
        }),
{
}

/// A menu with its middle at the position on the vertical axis is to the right of the position at
/// the distance, or else to the left of it with its end at the distance.
pub proof fn menus_go_to_the_right_or_to_the_left(position: Point, size: Size, distance: u32)
    requires
        distance <= i32::MAX,
        size.w >= 0 && size.h >= 0,
        i32::MIN <= position.y - size.h - 1,
        i32::MIN <= position.x - size.w - distance,
        position.x + distance <= i32::MAX,
    ensures
        ({
            let all = menu::places(
                position,
                size,
                AxisAlignment::Corner(distance),
                AxisAlignment::Centered,
            );
            let up = position.y - all[0].loc.y;
            &&& all.len() == 2
            &&& all[0].loc.x - position.x == distance
            &&& position.x - (all[1].loc.x + size.w) == distance
            &&& all[0].loc.y == all[1].loc.y
            &&& up == size.h - up || up == size.h - up + 1
        }),
{
}

/// A menu at a corner without a distance has the position at each of its corners in turn: top
/// left, top right, bottom left, bottom right.
pub proof fn menus_have_the_position_at_a_corner(position: Point, size: Size)
    requires
        size.w >= 0 && size.h >= 0,
        i32::MIN <= position.x - size.w,
        i32::MIN <= position.y - size.h,
    ensures
        ({
            let all = menu::places(position, size, AxisAlignment::Corner(0), AxisAlignment::Corner(0));
            &&& all.len() == 4
            &&& all[0].loc == position
            &&& all[1].loc.x + size.w == position.x && all[1].loc.y == position.y
            &&& all[2].loc.x == position.x && all[2].loc.y + size.h == position.y
            &&& all[3].loc.x + size.w == position.x && all[3].loc.y + size.h == position.y
        }),
{
}

/// A menu at a corner is at the distance from the position, diagonally, where it is below to the
/// right, below to the left or above to the left.
pub proof fn menus_keep_their_distance(position: Point, size: Size, dx: u32, dy: u32)
    requires
        dx <= i32::MAX && dy <= i32::MAX,
        size.w >= 0 && size.h >= 0,
        i32::MIN <= position.x - size.w - dx,
        i32::MIN <= position.y - size.h - dy,
        position.x + dx <= i32::MAX,
        position.y + dy <= i32::MAX,
    ensures
        ({
            let all = menu::places(
                position,
                size,
                AxisAlignment::Corner(dx),
                AxisAlignment::Corner(dy),
            );
            &&& all[0].loc.x - position.x == dx && all[0].loc.y - position.y == dy
            &&& position.x - (all[1].loc.x + size.w) == dx && all[1].loc.y - position.y == dy
            &&& position.x - (all[3].loc.x + size.w) == dx && position.y - (all[3].loc.y + size.h)
                == dy
        }),
{
}

/// A menu whose middle should be at the position is placed so first, and then at a corner; the
/// horizontal axis decides before the vertical one.
pub proof fn the_middle_is_tried_first(
    position: Point,
    size: Size,
    x: AxisAlignment,
    y: AxisAlignment,
)
    requires
        x == AxisAlignment::PreferCentered,
        y == AxisAlignment::PreferCentered,
    ensures
        menu::all_places(position, size, menu::ways(x), menu::ways(y)) == menu::places(
            position,
            size,
            AxisAlignment::Centered,
            AxisAlignment::Centered,
        ) + menu::places(position, size, AxisAlignment::Centered, AxisAlignment::Corner(0))
            + menu::places(position, size, AxisAlignment::Corner(0), AxisAlignment::Centered)
            + menu::places(position, size, AxisAlignment::Corner(0), AxisAlignment::Corner(0)),
{
    let c = AxisAlignment::Centered;
    let k = AxisAlignment::Corner(0);
    let both = seq![c, k];
    assert(both.drop_last() =~= seq![c]);
    assert(seq![c].drop_last() =~= seq![]);
    reveal_with_fuel(menu::places_along, 3);
    reveal_with_fuel(menu::all_places, 3);
    lemma_two(position, size, c);
    lemma_two(position, size, k);
    let one = menu::all_places(position, size, seq![c], both);
    assert(one =~= menu::places_along(position, size, c, both));
    let all = menu::all_places(position, size, both, both);
    assert(all =~= one + menu::places_along(position, size, k, both));
    let cc = menu::places(position, size, c, c);
    let ck = menu::places(position, size, c, k);
    let kc = menu::places(position, size, k, c);
    let kk = menu::places(position, size, k, k);
    assert((cc + ck) + (kc + kk) =~= cc + ck + kc + kk);
}

/// The places of a menu for two ways along the vertical axis.
proof fn lemma_two(position: Point, size: Size, x: AxisAlignment)
    ensures
        menu::places_along(
            position,
            size,
            x,
            seq![AxisAlignment::Centered, AxisAlignment::Corner(0)],
        ) == menu::places(position, size, x, AxisAlignment::Centered) + menu::places(
            position,
            size,
            x,
            AxisAlignment::Corner(0),
        ),
{
    let c = AxisAlignment::Centered;
    let k = AxisAlignment::Corner(0);
    assert(seq![c, k].drop_last() =~= seq![c]);
    assert(seq![c].drop_last() =~= seq![]);
    reveal_with_fuel(menu::places_along, 3);
    assert(menu::places_along(position, size, x, seq![c]) =~= menu::places(position, size, x, c));
}

/// A menu that is placed in one way only has the places of this way.
pub proof fn other_menus_have_one_way(
    position: Point,
    size: Size,
    x: AxisAlignment,
    y: AxisAlignment,
)
    requires
        x != AxisAlignment::PreferCentered,
        y != AxisAlignment::PreferCentered,
    ensures
        menu::all_places(position, size, menu::ways(x), menu::ways(y)) == menu::places(
            position,
            size,
            x,
            y,
        ),
{
    assert(seq![x].drop_last() =~= seq![]);
    assert(seq![y].drop_last() =~= seq![]);
    reveal_with_fuel(menu::places_along, 2);
    reveal_with_fuel(menu::all_places, 2);
    assert(menu::places_along(position, size, x, seq![y]) =~= menu::places(position, size, x, y));
    assert(menu::all_places(position, size, seq![x], seq![y]) =~= menu::places(
        position,
        size,
        x,
        y,
    ));
}

} // verus!
