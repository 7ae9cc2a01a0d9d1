//! Menus: their items, where they are placed, and the grab of the pointer while one is open.

use crate::geometry::{Point, Rectangle, Size};
use crate::wayland::protocols::shell_overlay::WindowAction;
use vstd::prelude::*;

verus! {

/// An item of a menu.
#[derive(Debug, PartialEq, Eq)]
pub enum Item {
    /// A line between entries.
    Separator,
    /// A menu below.
    Submenu { name: String, items: Vec<Item> },
    /// An entry.
    Entry {
        title: String,
        /// The keys that do the same.
        shortcut: Option<String>,
        /// Whether the entry is marked as on.
        toggled: bool,
        submenu: bool,
        /// Whether the entry cannot be chosen.
        disabled: bool,
        /// What the entry does with a window.
        action: Option<WindowAction>,
    },
}

impl Item {
    /// An entry.
    pub fn new(title: String) -> (r: Item)
        ensures
            r == (Item::Entry {
                title,
                shortcut: None,
                toggled: false,
                submenu: false,
                disabled: false,
                action: None,
            }),
    {
        Item::Entry {
            title,
            shortcut: None,
            toggled: false,
            submenu: false,
            disabled: false,
            action: None,
        }
    }

    /// A menu below.
    pub fn new_submenu(name: String, items: Vec<Item>) -> (r: Item)
        ensures
            r == (Item::Submenu { name, items }),
    {
        Item::Submenu { name, items }
    }

    /// The entry with an action; other items stay.
    pub fn action(self, value: WindowAction) -> (r: Item)
        ensures
            r == match self {
                Item::Entry { title, shortcut, toggled, submenu, disabled, action } => {
                    Item::Entry {
                        title,
                        shortcut,
                        toggled,
                        submenu,
                        disabled,
                        action: Some(value),
                    }
                },
                other => other,
            },
    {
        match self {
            Item::Entry { title, shortcut, toggled, submenu, disabled, action: _ } => Item::Entry {
                title,
                shortcut,
                toggled,
                submenu,
                disabled,
                action: Some(value),
            },
            other => other,
        }
    }

    /// The entry with keys that do the same; other items stay.
    pub fn shortcut(self, value: Option<String>) -> (r: Item)
        ensures
            r == match self {
                Item::Entry { title, shortcut, toggled, submenu, disabled, action } => {
                    Item::Entry { title, shortcut: value, toggled, submenu, disabled, action }
                },
                other => other,
            },
    {
        match self {
            Item::Entry { title, shortcut: _, toggled, submenu, disabled, action } => Item::Entry {
                title,
                shortcut: value,
                toggled,
                submenu,
                disabled,
                action,
            },
            other => other,
        }
    }

    /// The entry marked as on or off; other items stay.
    pub fn toggled(self, value: bool) -> (r: Item)
        ensures
            r == match self {
                Item::Entry { title, shortcut, toggled, submenu, disabled, action } => {
                    Item::Entry { title, shortcut, toggled: value, submenu, disabled, action }
                },
                other => other,
            },
    {
        match self {
            Item::Entry { title, shortcut, toggled: _, submenu, disabled, action } => Item::Entry {
                title,
                shortcut,
                toggled: value,
                submenu,
                disabled,
                action,
            },
            other => other,
        }
    }

    /// The entry that can or cannot be chosen; other items stay.
    pub fn disabled(self, value: bool) -> (r: Item)
        ensures
            r == match self {
                Item::Entry { title, shortcut, toggled, submenu, disabled, action } => {
                    Item::Entry { title, shortcut, toggled, submenu, disabled: value, action }
                },
                other => other,
            },
    {
        match self {
            Item::Entry { title, shortcut, toggled, submenu, disabled: _, action } => Item::Entry {
                title,
                shortcut,
                toggled,
                submenu,
                disabled: value,
                action,
            },
            other => other,
        }
    }
}

/// The state of a menu that is open.
#[derive(Clone, Copy, Debug, PartialEq, Eq, Structural)]
pub struct MenuGrabState {
    /// The output that the menu is placed on, where it is placed in screen space.
    pub screen_space_relative: Option<u64>,
    /// The number of the menu, where the shell draws it.
    pub menu_id: Option<u32>,
}

impl MenuGrabState {
    /// The state of a menu that opens on the given output.
    pub fn new(screen_space: bool, output: u64, menu_id: Option<u32>) -> (r: Self)
        ensures
            r.screen_space_relative == if screen_space {
                Some(output)
            } else {
                None
            },
            r.menu_id == menu_id,
    {
        MenuGrabState {
            screen_space_relative: if screen_space {
                Some(output)
            } else {
                None
            },
            menu_id,
        }
    }

    /// Whether the menu is placed in screen space.
    pub fn is_in_screen_space(&self) -> (r: bool)
        ensures
            r == (self.screen_space_relative is Some),
    {
        self.screen_space_relative.is_some()
    }
}

/// What opened a menu.
#[derive(Clone, Copy, Debug, PartialEq, Eq, Structural)]
pub enum GrabStart {
    Pointer,
    Touch,
}

/// What becomes of a press while a menu is open.
#[derive(Clone, Copy, Debug, PartialEq, Eq, Structural)]
pub enum GrabButton {
    /// The shell gets it.
    Forward,
    /// The grab ends.
    Release,
}

/// The grab of the pointer while a menu is open.
#[derive(Clone, Copy, Debug, PartialEq, Eq, Structural)]
pub struct MenuGrab {
    pub start: GrabStart,
    /// The surface of the shell that events go to.
    pub shell_focus: Option<u64>,
}

impl MenuGrab {
    /// What becomes of a press: the shell gets it, or the grab ends where there is no shell that
    /// could end it.
    pub fn button(&self) -> (r: GrabButton)
        ensures
            r == if self.shell_focus is Some {
                GrabButton::Forward
            } else {
                GrabButton::Release
            },
    {
        if self.shell_focus.is_none() {
            GrabButton::Release
        } else {
            GrabButton::Forward
        }
    }

    /// Whether a touch opened the menu.
    pub fn is_touch_grab(&self) -> (r: bool)
        ensures
            r == (self.start == GrabStart::Touch),
    {
        match self.start {
            GrabStart::Touch => true,
            GrabStart::Pointer => false,
        }
    }
}

/// How a menu is placed along one axis.
#[derive(Clone, Copy, Debug, PartialEq, Eq, Structural)]
pub enum AxisAlignment {
    /// With an end at a distance from the position.
    Corner(u32),
    /// With its middle at the position.
    Centered,
    /// With its middle at the position, or an end where that does not fit.
    PreferCentered,
}

/// How a menu is placed.
#[derive(Clone, Copy, Debug, PartialEq, Eq, Structural)]
pub struct MenuAlignment {
    pub x: AxisAlignment,
    pub y: AxisAlignment,
}

/// Half of a length, rounded away from zero.
pub open spec fn half(length: int) -> int {
    if length >= 0 {
        (length + 1) / 2
    } else {
        -((1 - length) / 2)
    }
}

/// Half of a length, rounded away from zero.
fn half_of(length: i32) -> (r: i32)
    ensures
        r == half(length as int),
{
    let wide: i64 = length as i64;
    if length >= 0 {
        ((wide + 1) / 2) as i32
    } else {
        (-((1 - wide) / 2)) as i32
    }
}

/// A distance as a coordinate.
pub open spec fn distance(offset: u32) -> int {
    (offset as i32) as int
}

/// Whether a number is a coordinate.
pub open spec fn fits(n: int) -> bool {
    i32::MIN <= n <= i32::MAX
}

/// Whether the places of a menu that is centered or at a corner on each axis can be computed.
pub open spec fn computable(position: Point, size: Size, x: AxisAlignment, y: AxisAlignment) -> bool {
    match (x, y) {
        (AxisAlignment::Corner(dx), AxisAlignment::Corner(dy)) => fits(-distance(dx)) && fits(
            -distance(dy),
        ),
        (AxisAlignment::Centered, AxisAlignment::Corner(dy)) => fits(position.x - half(size.w as int))
            && fits(position.y + distance(dy)) && fits(position.y - size.h) && fits(
            position.y - size.h - distance(dy),
        ),
        (AxisAlignment::Corner(dx), AxisAlignment::Centered) => fits(position.y - half(size.h as int))
            && fits(position.x + distance(dx)) && fits(position.x - size.w) && fits(
            position.x - size.w - distance(dx),
        ),
        _ => true,
    }
}

/// A place of a menu.
pub open spec fn place(x: int, y: int, size: Size) -> Rectangle {
    Rectangle { loc: Point { x: x as i32, y: y as i32 }, size }
}

/// The places of a menu that is centered or at a corner on each axis, the best one first: the
/// menu may go to either side of the position on an axis on which it is at a corner.
pub open spec fn places(position: Point, size: Size, x: AxisAlignment, y: AxisAlignment) -> Seq<
    Rectangle,
> {
    match (x, y) {
        (AxisAlignment::Corner(dx), AxisAlignment::Corner(dy)) => {
            let d = Point { x: dx as i32, y: dy as i32 };
            let left = Point { x: (-distance(dx)) as i32, y: dy as i32 };
            let up = Point { x: dx as i32, y: (-distance(dy)) as i32 };
            seq![
                Rectangle { loc: position.plus(d), size },
                Rectangle { loc: position.minus(Point { x: size.w, y: 0 }).plus(left), size },
                Rectangle { loc: position.minus(Point { x: 0, y: size.h }).minus(up), size },
                Rectangle { loc: position.minus(Point { x: size.w, y: size.h }).minus(d), size },
            ]
        },
        (AxisAlignment::Centered, AxisAlignment::Corner(dy)) => {
            let left = position.x - half(size.w as int);
            seq![
                place(left, position.y + distance(dy), size),
                place(left, position.y - size.h - distance(dy), size),
            ]
        },
        (AxisAlignment::Corner(dx), AxisAlignment::Centered) => {
            let top = position.y - half(size.h as int);
            seq![
                place(position.x + distance(dx), top, size),
                place(position.x - size.w - distance(dx), top, size),
            ]
        },
        _ => seq![
            Rectangle {
                loc: position.minus(
                    Point { x: half(size.w as int) as i32, y: half(size.h as int) as i32 },
                ),
                size,
            },
        ],
    }
}

/// The ways to place a menu along an axis, the best one first.
pub open spec fn ways(alignment: AxisAlignment) -> Seq<AxisAlignment> {
    match alignment {
        AxisAlignment::PreferCentered => seq![AxisAlignment::Centered, AxisAlignment::Corner(0)],
        other => seq![other],
    }
}

/// The places of a menu for each way along the vertical axis.
pub open spec fn places_along(
    position: Point,
    size: Size,
    x: AxisAlignment,
    ys: Seq<AxisAlignment>,
) -> Seq<Rectangle>
    decreases ys.len(),
{
    if ys.len() == 0 {
        seq![]
    } else {
        places_along(position, size, x, ys.drop_last()) + places(position, size, x, ys.last())
    }
}

/// The places of a menu for each way along both axes.
pub open spec fn all_places(
    position: Point,
    size: Size,
    xs: Seq<AxisAlignment>,
    ys: Seq<AxisAlignment>,
) -> Seq<Rectangle>
    decreases xs.len(),
{
    if xs.len() == 0 {
        seq![]
    } else {
        all_places(position, size, xs.drop_last(), ys) + places_along(
            position,
            size,
            xs.last(),
            ys,
        )
    }
}

/// The ways to place a menu along an axis.
fn ways_of(alignment: AxisAlignment) -> (r: Vec<AxisAlignment>)
    ensures
        r@ == ways(alignment),
{
    let mut out: Vec<AxisAlignment> = Vec::new();
    match alignment {
        AxisAlignment::PreferCentered => {
            out.push(AxisAlignment::Centered);
            out.push(AxisAlignment::Corner(0));
        },
        other => {
            out.push(other);
        },
    }
    assert(out@ =~= ways(alignment));
    out
}

/// Adds the places of a menu that is centered or at a corner on each axis.
fn add_places(
    out: &mut Vec<Rectangle>,
    position: Point,
    size: Size,
    x: AxisAlignment,
    y: AxisAlignment,
)
    requires
        computable(position, size, x, y),
    ensures
        final(out)@ == old(out)@ + places(position, size, x, y),
{
    match (x, y) {
        (AxisAlignment::Corner(dx), AxisAlignment::Corner(dy)) => {
            let ox: i32 = dx as i32;
            let oy: i32 = dy as i32;
            let d = Point { x: ox, y: oy };
            out.push(Rectangle { loc: position.offset_by(d), size });
            out.push(
                Rectangle {
                    loc: position.relative_to(Point { x: size.w, y: 0 }).offset_by(
                        Point { x: -ox, y: oy },
                    ),
                    size,
                },
            );
            out.push(
                Rectangle {
                    loc: position.relative_to(Point { x: 0, y: size.h }).relative_to(
                        Point { x: ox, y: -oy },
                    ),
                    size,
                },
            );
            out.push(
                Rectangle {
                    loc: position.relative_to(Point { x: size.w, y: size.h }).relative_to(d),
                    size,
                },
            );
        },
        (AxisAlignment::Centered, AxisAlignment::Corner(dy)) => {
            let oy: i32 = dy as i32;
            let left: i32 = position.x - half_of(size.w);
            out.push(Rectangle { loc: Point { x: left, y: position.y + oy }, size });
            out.push(Rectangle { loc: Point { x: left, y: position.y - size.h - oy }, size });
        },
        (AxisAlignment::Corner(dx), AxisAlignment::Centered) => {
            let ox: i32 = dx as i32;
            let top: i32 = position.y - half_of(size.h);
            out.push(Rectangle { loc: Point { x: position.x + ox, y: top }, size });
            out.push(Rectangle { loc: Point { x: position.x - size.w - ox, y: top }, size });
        },
        _ => {
            out.push(
                Rectangle {
                    loc: position.relative_to(Point { x: half_of(size.w), y: half_of(size.h) }),
                    size,
                },
            );
        },
    }
    assert(out@ =~= old(out)@ + places(position, size, x, y));
}

impl MenuAlignment {
    /// With a corner at the position.
    pub fn corner() -> (r: MenuAlignment)
        ensures
            r == (MenuAlignment { x: AxisAlignment::Corner(0), y: AxisAlignment::Corner(0) }),
    {
        MenuAlignment { x: AxisAlignment::Corner(0), y: AxisAlignment::Corner(0) }
    }

    /// With its middle at the position, or an end.
    pub fn prefer_centered() -> (r: MenuAlignment)
        ensures
            r == (MenuAlignment { x: AxisAlignment::PreferCentered, y: AxisAlignment::PreferCentered }),
    {
        MenuAlignment { x: AxisAlignment::PreferCentered, y: AxisAlignment::PreferCentered }
    }

    /// With its middle at the position.
    pub fn centered() -> (r: MenuAlignment)
        ensures
            r == (MenuAlignment { x: AxisAlignment::Centered, y: AxisAlignment::Centered }),
    {
        MenuAlignment { x: AxisAlignment::Centered, y: AxisAlignment::Centered }
    }

    /// Below or above the position, with its middle there.
    pub fn centered_horizontally() -> (r: MenuAlignment)
        ensures
            r == (MenuAlignment { x: AxisAlignment::Centered, y: AxisAlignment::Corner(0) }),
    {
        MenuAlignment { x: AxisAlignment::Centered, y: AxisAlignment::Corner(0) }
    }

    /// Beside the position, with its middle there.
    pub fn centered_vertically() -> (r: MenuAlignment)
        ensures
            r == (MenuAlignment { x: AxisAlignment::Corner(0), y: AxisAlignment::Centered }),
    {
        MenuAlignment { x: AxisAlignment::Corner(0), y: AxisAlignment::Centered }
    }

    /// Below or above the position, at a distance; its middle must be there, or only should.
    pub fn horizontally_centered(offset: u32, fixed: bool) -> (r: MenuAlignment)
        ensures
            r == (MenuAlignment {
                x: if fixed {
                    AxisAlignment::Centered
                } else {
                    AxisAlignment::PreferCentered
                },
                y: AxisAlignment::Corner(offset),
            }),
    {
        MenuAlignment {
            x: if fixed {
                AxisAlignment::Centered
            } else {
                AxisAlignment::PreferCentered
            },
            y: AxisAlignment::Corner(offset),
        }
    }

    /// Beside the position, at a distance; its middle must be there, or only should.
    pub fn vertically_centered(offset: u32, fixed: bool) -> (r: MenuAlignment)
        ensures
            r == (MenuAlignment {
                x: AxisAlignment::Corner(offset),
                y: if fixed {
                    AxisAlignment::Centered
                } else {
                    AxisAlignment::PreferCentered
                },
            }),
    {
        MenuAlignment {
            x: AxisAlignment::Corner(offset),
            y: if fixed {
                AxisAlignment::Centered
            } else {
                AxisAlignment::PreferCentered
            },
        }
    }

    /// Whether all places can be computed: no coordinate leaves the range of coordinates.
    pub open spec fn placeable(self, position: Point, size: Size) -> bool {
        forall|i: int, j: int|
            0 <= i < ways(self.x).len() && 0 <= j < ways(self.y).len() ==> computable(
                position,
                size,
                #[trigger] ways(self.x)[i],
                #[trigger] ways(self.y)[j],
            )
    }

    /// The places of a menu of the given size at a position, the best one first.
    pub fn rectangles(&self, position: Point, size: Size) -> (r: Vec<Rectangle>)
        requires
            self.placeable(position, size),
        ensures
            r@ == all_places(position, size, ways(self.x), ways(self.y)),
    {
        let xs: Vec<AxisAlignment> = ways_of(self.x);
        let ys: Vec<AxisAlignment> = ways_of(self.y);
        let mut out: Vec<Rectangle> = Vec::new();
        let mut i: usize = 0;
        assert(out@ =~= all_places(position, size, xs@.take(0), ys@));
        while i < xs.len()
            invariant
                i <= xs@.len(),
                xs@ == ways(self.x),
                ys@ == ways(self.y),
                self.placeable(position, size),
                out@ == all_places(position, size, xs@.take(i as int), ys@),
            decreases xs@.len() - i,
        {
            let ghost before = out@;
            let mut j: usize = 0;
            proof {
                assert(before + places_along(position, size, xs@[i as int], ys@.take(0)) =~= before);
                assert(xs@.take(i + 1).drop_last() =~= xs@.take(i as int));
                assert(xs@.take(i + 1).last() == xs@[i as int]);
            }
            while j < ys.len()
                invariant
                    i < xs@.len(),
                    j <= ys@.len(),
                    xs@ == ways(self.x),
                    ys@ == ways(self.y),
                    self.placeable(position, size),
                    out@ == before + places_along(
                        position,
                        size,
                        xs@[i as int],
                        ys@.take(j as int),
                    ),
                decreases ys@.len() - j,
            {
                let ghost so_far = out@;
                proof {
                    assert(computable(position, size, ways(self.x)[i as int], ways(self.y)[j as int]));
                    assert(ys@.take(j + 1).drop_last() =~= ys@.take(j as int));
                    assert(ys@.take(j + 1).last() == ys@[j as int]);
                }
                add_places(&mut out, position, size, xs[i], ys[j]);
                assert(out@ =~= before + places_along(
                    position,
                    size,
                    xs@[i as int],
                    ys@.take(j + 1),
                ));
                j += 1;
            }
            assert(ys@.take(j as int) =~= ys@);
            i += 1;
        }
        assert(xs@.take(i as int) =~= xs@);
        out
    }
}

/// A centered menu has the position in it.
pub proof fn a_centered_menu_has_the_position_in_it(position: Point, size: Size)
    requires
        size.w > 0,
        size.h > 0,
        fits(position.x - half(size.w as int)),
        fits(position.y - half(size.h as int)),
    ensures
        ({
            let r = places(position, size, AxisAlignment::Centered, AxisAlignment::Centered)[0];
            &&& r.loc.x <= position.x <= r.loc.x + size.w
            &&& r.loc.y <= position.y <= r.loc.y + size.h
        }),
{
}

/// A menu at a corner does not cover the position, where the distance is not zero: below to the
/// right, below to the left, and above to the left.
pub proof fn a_menu_at_a_corner_is_beside_the_position(
    position: Point,
    size: Size,
    dx: u32,
    dy: u32,
    i: int,
)
    requires
        0 < dx <= i32::MAX,
        0 < dy <= i32::MAX,
        size.w > 0,
        size.h > 0,
        fits(position.x + dx),
        fits(position.x - size.w - dx),
        fits(position.y + dy),
        fits(position.y - size.h - dy),
        i == 0 || i == 1 || i == 3,
    ensures
        ({
            let r = places(position, size, AxisAlignment::Corner(dx), AxisAlignment::Corner(dy))[i];
            &&& position.x < r.loc.x || r.loc.x + size.w < position.x
            &&& position.y < r.loc.y || r.loc.y + size.h < position.y
        }),
{
}

} // verus!
