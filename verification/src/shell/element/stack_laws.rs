//! What the operations on a stack do to its windows, its tabs and the window that is shown.

use crate::geometry::{Point, Rectangle, Size};
use crate::shell::element::stack;
use crate::shell::element::stack::{Direction, FocusDirection, MoveResult, StackModel};
use crate::shell::element::surface::CosmicSurface;
use vstd::prelude::*;

verus! {

/// Removing a window leaves the others in their order, and the shown tab at its place as long as
/// there is one: what is behind the shown window is removed without a change of what is shown,
/// and the last one is shown where the place is gone.
pub proof fn removing_keeps_the_shown_tab(m: StackModel, index: int)
    requires
        m.wf(),
        m.windows.len() > 1,
        0 <= index < m.windows.len(),
    ensures
        ({
            let after = m.without(index);
            &&& after.wf()
            &&& after.windows.len() == m.windows.len() - 1
            &&& forall|k: int| 0 <= k < index ==> #[trigger] after.windows[k] == m.windows[k]
            &&& forall|k: int|
                index <= k < after.windows.len() ==> #[trigger] after.windows[k] == m.windows[k + 1]
            &&& index > m.active ==> after.active_window() == m.active_window()
            &&& m.active < m.windows.len() - 1 ==> after.active == m.active
            &&& m.active == m.windows.len() - 1 ==> after.active == m.active - 1
            &&& m.active == m.windows.len() - 1 && index < m.active ==> after.active_window()
                == m.active_window()
            &&& index == m.active ==> after.reenter
            &&& index != m.active ==> after.reenter == m.reenter
            &&& after.group_focused == m.group_focused
            &&& after.activated == m.activated
            &&& after.geometry == m.geometry
            &&& after.stack_id == m.stack_id
            &&& after.override_alive == m.override_alive
            &&& after.previous_index == m.previous_index
            &&& after.potential_drag == m.potential_drag
            &&& after.pointer_entered == m.pointer_entered
            &&& after.tiled == m.tiled
        }),
{
}

/// The window that is removed by its name is the first with the name; nothing is where no window
/// has it.
pub proof fn windows_are_found_by_their_names(m: StackModel, id: u64)
    ensures
        match m.position(id) {
            Some(i) => 0 <= i < m.windows.len() && m.windows[i].id == id && forall|j: int|
                0 <= j < i ==> (#[trigger] m.windows[j]).id != id,
            None => forall|j: int| 0 <= j < m.windows.len() ==> (#[trigger] m.windows[j]).id != id,
        },
{
    lemma_position_from(m.windows, id, 0);
}

/// The first window with a name from a place on.
proof fn lemma_position_from(windows: Seq<CosmicSurface>, id: u64, from: int)
    requires
        0 <= from,
    ensures
        match stack::position_from(windows, id, from) {
            Some(i) => from <= i < windows.len() && windows[i].id == id && forall|j: int|
                from <= j < i ==> (#[trigger] windows[j]).id != id,
            None => forall|j: int| from <= j < windows.len() ==> (#[trigger] windows[j]).id != id,
        },
    decreases windows.len() - from,
{
    if from < windows.len() && windows[from].id != id {
        lemma_position_from(windows, id, from + 1);
    }
}

/// An added window is shown, at the place that was asked for or else at the end, and the others
/// keep their order; it is the same window, undecorated, tiled and told so.
pub proof fn an_added_window_is_shown(
    m: StackModel,
    window: CosmicSurface,
    idx: Option<usize>,
    moved_into: Option<u32>,
)
    requires
        m.wf(),
        m.can_add(idx),
    ensures
        ({
            let after = m.with_added(window, idx, moved_into);
            let at = match idx {
                Some(i) => i as int,
                None => m.windows.len() as int,
            };
            &&& after.wf()
            &&& after.active == at
            &&& after.windows.len() == m.windows.len() + 1
            &&& after.windows[at].id == window.id
            &&& after.windows[at].wl_surface == window.wl_surface
            &&& after.windows[at].alive == window.alive
            &&& after.windows[at].geometry == window.geometry
            &&& after.windows[at].force_undecorated && after.windows[at].tiled
                && after.windows[at].configure
            &&& forall|k: int| 0 <= k < at ==> #[trigger] after.windows[k] == m.windows[k]
            &&& forall|k: int|
                at <= k < m.windows.len() ==> after.windows[k + 1] == #[trigger] m.windows[k]
            &&& after.scroll_to_focus
            &&& after.group_focused == m.group_focused
            &&& after.activated == m.activated
            &&& after.geometry == m.geometry
            &&& after.override_alive == m.override_alive
            &&& idx == Some(m.active as usize) && m.windows.len() <= usize::MAX ==> after.reenter
            &&& m.geometry matches Some(geo) ==> (after.windows[at].requested matches Some(q)
                && q.header == 24 && q.geometry.loc.x == geo.loc.x && q.geometry.loc.y
                == geo.loc.y + 24 && q.geometry.size.w == geo.size.w && q.geometry.size.h
                == geo.size.h - 24)
        }),
{
}

/// The focus goes to the tab beside the shown one, on the side that was asked for, and the move
/// is used up; nothing else of the windows changes.
pub proof fn the_focus_goes_to_the_next_tab(m: StackModel, swapping: bool, serial: Option<u32>)
    requires
        m.wf(),
        !m.group_focused,
    ensures
        m.active > 0 ==> {
            let (after, handled) = m.focus_moved(FocusDirection::Left, swapping, serial);
            handled && after.active == m.active - 1 && after.windows == m.windows
                && after.previous_keyboard == m.active && !after.group_focused
                && after.scroll_to_focus
        },
        m.active < m.windows.len() - 1 ==> {
            let (after, handled) = m.focus_moved(FocusDirection::Right, swapping, serial);
            handled && after.active == m.active + 1 && after.windows == m.windows
                && after.previous_keyboard == m.active && !after.group_focused
                && after.scroll_to_focus
        },
{
}

/// A move of the focus that leaves the tabs is not used up, and returns to the tab that was shown
/// when the modifiers last changed, which is the shown one where they have since.
pub proof fn a_focus_that_leaves_returns_to_the_recorded_tab(
    m: StackModel,
    direction: FocusDirection,
    swapping: bool,
    serial: u32,
)
    requires
        m.wf(),
        m.windows.len() <= usize::MAX,
        !m.group_focused,
        direction is Up || direction is Down || (direction is Left && m.active == 0) || (
        direction is Right && m.active == m.windows.len() - 1),
    ensures
        ({
            let (after, handled) = m.focus_moved(direction, swapping, Some(serial));
            &&& !handled
            &&& after.windows == m.windows
            &&& m.previous_index matches Some(p) ==> p.serial == serial ==> after.active == p.index
            &&& (m.previous_index matches Some(p) ==> p.serial != serial) ==> after.active
                == m.active && (after.previous_index matches Some(p) && p.serial == serial
                && p.index == m.active)
        }),
{
}

/// The focus goes out to the stack as a whole and in again; while windows are swapped it does
/// neither. Outside no window is told that it is active.
pub proof fn the_focus_goes_out_and_in(m: StackModel, serial: Option<u32>)
    requires
        m.wf(),
    ensures
        !m.group_focused ==> {
            let (after, handled) = m.focus_moved(FocusDirection::Out, false, serial);
            handled && after.group_focused && after.active == m.active && after.windows.len()
                == m.windows.len() && forall|k: int|
                0 <= k < m.windows.len() ==> !(#[trigger] after.windows[k]).activated
                    && after.windows[k].id == m.windows[k].id
        },
        m.group_focused ==> {
            let (after, handled) = m.focus_moved(FocusDirection::In, false, serial);
            !handled && !after.group_focused && after.windows == m.windows && after.active
                == m.active
        },
        !m.group_focused ==> {
            let (after, handled) = m.focus_moved(FocusDirection::In, false, serial);
            handled && !after.group_focused && after.active == m.active
                && after.active_window().activated
        },
        m.focus_moved(FocusDirection::Out, true, serial).0.group_focused == m.group_focused,
        m.focus_moved(FocusDirection::In, true, serial).0.group_focused == m.group_focused,
        !m.focus_moved(FocusDirection::Out, true, serial).1,
        !m.focus_moved(FocusDirection::In, true, serial).1,
        m.group_focused ==> !m.focus_moved(FocusDirection::Left, false, serial).1
            && !m.focus_moved(FocusDirection::Right, false, serial).1 && m.focus_moved(
            FocusDirection::Left,
            false,
            serial,
        ).0.active == m.active && m.focus_moved(FocusDirection::Right, false, serial).0.active
            == m.active,
{
}

/// Moving the shown window one tab aside exchanges it with that tab, and no other window moves.
pub proof fn a_moved_window_changes_places_with_the_next(m: StackModel)
    requires
        m.wf(),
        !m.group_focused,
    ensures
        m.active > 0 ==> {
            let (after, result) = m.moved(Direction::Left);
            &&& result is Handled
            &&& after.active == m.active - 1
            &&& after.windows.len() == m.windows.len()
            &&& after.windows[m.active - 1] == m.windows[m.active]
            &&& after.windows[m.active] == m.windows[m.active - 1]
            &&& forall|k: int|
                0 <= k < m.windows.len() && k != m.active && k != m.active - 1
                    ==> #[trigger] after.windows[k] == m.windows[k]
        },
        m.active < m.windows.len() - 1 ==> {
            let (after, result) = m.moved(Direction::Right);
            &&& result is Handled
            &&& after.active == m.active + 1
            &&& after.windows.len() == m.windows.len()
            &&& after.windows[m.active + 1] == m.windows[m.active]
            &&& after.windows[m.active] == m.windows[m.active + 1]
            &&& forall|k: int|
                0 <= k < m.windows.len() && k != m.active && k != m.active + 1
                    ==> #[trigger] after.windows[k] == m.windows[k]
        },
{
}

/// Moving the shown window beyond the tabs, or up or down, takes it out of a stack of several,
/// and the others keep their order; of a stack of one, or one that is focused as a whole, the
/// stack itself is to be moved.
pub proof fn a_window_moved_beyond_the_tabs_leaves(m: StackModel, direction: Direction)
    requires
        m.wf(),
        direction is Up || direction is Down || (direction is Left && m.active == 0) || (
        direction is Right && m.active == m.windows.len() - 1),
    ensures
        ({
            let (after, result) = m.moved(direction);
            &&& m.group_focused || m.windows.len() == 1 ==> result is Default && after == m
            &&& !m.group_focused && m.windows.len() > 1 ==> {
                &&& result matches MoveResult::MoveOut(w) && w.id == m.active_window().id
                    && !w.force_undecorated && !w.tiled
                &&& after.wf()
                &&& after.windows.len() == m.windows.len() - 1
                &&& forall|k: int|
                    0 <= k < m.active ==> #[trigger] after.windows[k] == m.windows[k]
                &&& forall|k: int|
                    m.active <= k < after.windows.len() ==> #[trigger] after.windows[k]
                        == m.windows[k + 1]
                &&& m.previous_index matches Some(p) ==> p.index < m.windows.len() - 1
                    ==> after.active == p.index
                &&& m.previous_index is None ==> after.active == (if m.active == m.windows.len()
                    - 1 {
                    m.active - 1
                } else {
                    m.active
                })
            }
        }),
{
}

/// Refreshing drops the dead windows and no others; the living keep their order, and only the
/// shown one is not suspended. Where all are dead, the shown one stays.
pub proof fn refreshing_drops_the_dead(m: StackModel, id: u64)
    requires
        m.wf(),
    ensures
        ({
            let after = m.refreshed();
            let living = m.windows.filter(|w: CosmicSurface| w.alive);
            &&& after.wf()
            &&& living.len() > 0 ==> after.windows.len() == living.len() && forall|k: int|
                0 <= k < living.len() ==> (#[trigger] after.windows[k]).id == living[k].id
                    && after.windows[k].wl_surface == living[k].wl_surface
                    && after.windows[k].geometry == living[k].geometry && after.windows[k].alive
                    && after.windows[k].activated == living[k].activated
            &&& living.len() == 0 ==> after.windows.len() == 1 && after.windows[0].id
                == m.active_window().id
            &&& forall|k: int|
                0 <= k < after.windows.len() ==> (#[trigger] after.windows[k]).suspended == (k
                    != after.active) && after.windows[k].configure
            &&& living.len() > m.active ==> after.active == m.active
            &&& 0 < living.len() <= m.active ==> after.active == living.len() - 1
            &&& after.group_focused == m.group_focused
            &&& after.geometry == m.geometry
            &&& after.override_alive == m.override_alive
        }),
{
    let p = |w: CosmicSurface| w.alive;
    let living = m.windows.filter(p);
    crate::seqs::lemma_filter_contains(m.windows, p);
    assert forall|k: int| 0 <= k < living.len() implies (#[trigger] living[k]).alive by {
        assert(p(m.windows.filter(p)[k]));
    }
}

/// Where all windows live, refreshing keeps them all and the shown one.
pub proof fn refreshing_keeps_the_living(m: StackModel)
    requires
        m.wf(),
        forall|k: int| 0 <= k < m.windows.len() ==> (#[trigger] m.windows[k]).alive,
    ensures
        m.refreshed().active == m.active,
        m.refreshed().windows.len() == m.windows.len(),
        m.refreshed().active_window().id == m.active_window().id,
{
    let p = |w: CosmicSurface| w.alive;
    lemma_all_kept(m.windows, p);
}

/// A filter that all pass keeps all.
proof fn lemma_all_kept(s: Seq<CosmicSurface>, p: spec_fn(CosmicSurface) -> bool)
    requires
        forall|k: int| 0 <= k < s.len() ==> p(#[trigger] s[k]),
    ensures
        s.filter(p) == s,
    decreases s.len(),
{
    reveal(Seq::filter);
    if s.len() > 0 {
        assert forall|k: int| 0 <= k < s.drop_last().len() implies p(
            #[trigger] s.drop_last()[k],
        ) by {
            assert(s.drop_last()[k] == s[k]);
        }
        lemma_all_kept(s.drop_last(), p);
        assert(s.drop_last().push(s.last()) =~= s);
    }
}

/// The keyboard leaves the window that had it and enters the shown one where they differ, enters
/// the shown one alone where it has to anew, and else stays; then the shown one has it.
pub proof fn the_keyboard_follows_the_shown_window(m: StackModel)
    requires
        m.wf(),
    ensures
        ({
            let (after, switch) = m.keyboard_settled();
            &&& after.previous_keyboard == m.active
            &&& after.active == m.active
            &&& after.windows == m.windows
            &&& after.group_focused == m.group_focused
            &&& m.previous_keyboard != m.active ==> switch.enter == Some(m.active_window().id)
            &&& m.previous_keyboard != m.active && 0 <= m.previous_keyboard < m.windows.len()
                ==> switch.leave == Some(m.windows[m.previous_keyboard].id)
            &&& m.previous_keyboard == m.active ==> switch.leave is None
            &&& m.previous_keyboard == m.active && m.reenter ==> switch.enter == Some(
                m.active_window().id,
            ) && !after.reenter
            &&& m.previous_keyboard == m.active && !m.reenter ==> switch.enter is None
        }),
{
}

/// A tab that is dragged out is the one that may be; its window may decorate itself again and its
/// surface is the one to move. Without such a tab nothing is dragged, and no tab may be any more.
pub proof fn the_marked_tab_is_dragged_out(m: StackModel, k: int)
    requires
        0 <= k < m.windows.len(),
    ensures
        ({
            let (after, surface) = m.dragged_out();
            &&& after.potential_drag is None
            &&& after.windows.len() == m.windows.len()
            &&& after.active == m.active
            &&& after.windows[k].id == m.windows[k].id
            &&& m.potential_drag != Some(k as usize) || k > usize::MAX ==> after.windows[k]
                == m.windows[k]
            &&& m.potential_drag matches Some(i) ==> i == k ==> surface == m.windows[k].wl_surface
                && !after.windows[k].force_undecorated && after.windows[k].configure
            &&& m.potential_drag is None ==> surface is None
        }),
{
}

/// The tabs are left above and below them, and near either end.
pub proof fn the_middle_of_the_tabs_is_not_left(
    geo: Rectangle,
    location: crate::geometry::Position,
)
    ensures
        stack::outside_tab_bar(geo, location) <==> !(location.y_floor >= geo.loc.y
            && location.y_ceil <= geo.loc.y + 24 && location.x_floor >= geo.loc.x + 64
            && location.x_ceil <= geo.loc.x + geo.size.w - 64),
{
}

/// The smallest size of a stack holds every window that has one, and the tabs, and is no larger
/// than one of them makes it in either direction.
pub proof fn the_smallest_size_holds_every_window(m: StackModel, k: int)
    requires
        0 <= k < m.windows.len(),
        m.windows[k].min_size is Some,
    ensures
        ({
            let least = m.windows[k].min_size->0;
            m.min_size() matches Some(size) && size.w >= least.w && (least.h + 24 <= i32::MAX
                ==> size.h >= least.h + 24)
        }),
        stack::largest_minimum(m.windows) matches Some(size) && (exists|i: int|
            0 <= i < m.windows.len() && (#[trigger] m.windows[i]).min_size is Some
                && m.windows[i].min_size->0.w == size.w) && (exists|i: int|
            0 <= i < m.windows.len() && (#[trigger] m.windows[i]).min_size is Some
                && m.windows[i].min_size->0.h == size.h),
{
    lemma_largest_minimum(m.windows);
}

/// The largest of the smallest sizes is reached in each direction and not exceeded.
proof fn lemma_largest_minimum(windows: Seq<CosmicSurface>)
    ensures
        match stack::largest_minimum(windows) {
            Some(size) => {
                &&& forall|i: int|
                    0 <= i < windows.len() ==> ((#[trigger] windows[i]).min_size matches Some(s)
                        ==> s.w <= size.w && s.h <= size.h)
                &&& exists|i: int|
                    0 <= i < windows.len() && (#[trigger] windows[i]).min_size is Some
                        && windows[i].min_size->0.w == size.w
                &&& exists|i: int|
                    0 <= i < windows.len() && (#[trigger] windows[i]).min_size is Some
                        && windows[i].min_size->0.h == size.h
            },
            None => forall|i: int|
                0 <= i < windows.len() ==> (#[trigger] windows[i]).min_size is None,
        },
    decreases windows.len(),
{
    if windows.len() > 0 {
        let init = windows.drop_last();
        let n = windows.len() - 1;
        lemma_largest_minimum(init);
        match stack::largest_minimum(windows) {
            Some(size) => {
                assert forall|i: int| 0 <= i < windows.len() implies ((
                #[trigger] windows[i]).min_size matches Some(s) ==> s.w <= size.w && s.h
                    <= size.h) by {
                    if i < n {
                        assert(init[i] == windows[i]);
                    }
                }
                match stack::largest_minimum(init) {
                    Some(before) => {
                        let a = choose|i: int|
                            0 <= i < init.len() && (#[trigger] init[i]).min_size is Some
                                && init[i].min_size->0.w == before.w;
                        let b = choose|i: int|
                            0 <= i < init.len() && (#[trigger] init[i]).min_size is Some
                                && init[i].min_size->0.h == before.h;
                        assert(windows[a] == init[a] && windows[b] == init[b]);
                        let l = windows[n].min_size;
                        let wi = if l is Some && l->0.w >= before.w {
                            n
                        } else {
                            a
                        };
                        let hi = if l is Some && l->0.h >= before.h {
                            n
                        } else {
                            b
                        };
                        assert(windows[wi].min_size->0.w == size.w);
                        assert(windows[hi].min_size->0.h == size.h);
                    },
                    None => {
                        assert(windows[n].min_size == Some(size));
                    },
                }
            },
            None => {
                assert forall|i: int| 0 <= i < windows.len() implies (
                #[trigger] windows[i]).min_size is None by {
                    if i < n {
                        assert(init[i] == windows[i]);
                    }
                }
            },
        }
    }
}

/// The largest size of a stack exceeds that of no window that has a limit, where the smallest
/// sizes do not ask for more.
pub proof fn the_largest_size_fits_every_window(m: StackModel, k: int)
    requires
        0 <= k < m.windows.len(),
        m.windows[k].max_size is Some,
        stack::largest_minimum(m.windows) is None,
        forall|i: int|
            0 <= i < m.windows.len() ==> ((#[trigger] m.windows[i]).max_size matches Some(s)
                ==> s.w >= 0 && s.h >= 0),
    ensures
        ({
            let most = m.windows[k].max_size->0;
            &&& m.max_size() matches Some(size) && (most.w > 0 ==> 0 < size.w <= most.w) && (most.h
                > 0 ==> size.h <= most.h + 24)
        }),
{
    lemma_smallest_maximum(m.windows);
}

/// The smallest of the limits is not above any of them.
proof fn lemma_smallest_maximum(windows: Seq<CosmicSurface>)
    requires
        forall|i: int|
            0 <= i < windows.len() ==> ((#[trigger] windows[i]).max_size matches Some(s) ==> s.w
                >= 0 && s.h >= 0),
    ensures
        match stack::smallest_maximum(windows) {
            Some(size) => {
                &&& size.w >= 0 && size.h >= 0
                &&& forall|i: int|
                    0 <= i < windows.len() ==> ((#[trigger] windows[i]).max_size matches Some(s)
                        ==> (s.w > 0 ==> 0 < size.w <= s.w) && (s.h > 0 ==> 0 < size.h <= s.h))
            },
            None => forall|i: int|
                0 <= i < windows.len() ==> (#[trigger] windows[i]).max_size is None,
        },
    decreases windows.len(),
{
    if windows.len() > 0 {
        let init = windows.drop_last();
        let n = windows.len() - 1;
        assert forall|i: int| 0 <= i < init.len() implies ((
        #[trigger] init[i]).max_size matches Some(s) ==> s.w >= 0 && s.h >= 0) by {
            assert(init[i] == windows[i]);
        }
        assert(windows[n].max_size matches Some(s) ==> s.w >= 0 && s.h >= 0);
        lemma_smallest_maximum(init);
        match stack::smallest_maximum(windows) {
            Some(size) => {
                assert forall|i: int| 0 <= i < windows.len() implies ((
                #[trigger] windows[i]).max_size matches Some(s) ==> (s.w > 0 ==> 0 < size.w <= s.w)
                    && (s.h > 0 ==> 0 < size.h <= s.h)) by {
                    if i < n {
                        assert(init[i] == windows[i]);
                    }
                }
            },
            None => {
                assert forall|i: int| 0 <= i < windows.len() implies (
                #[trigger] windows[i]).max_size is None by {
                    if i < n {
                        assert(init[i] == windows[i]);
                    }
                }
            },
        }
    }
}

/// A stack of one window that is given up keeps the window, which may decorate itself again, and
/// lives no longer.
pub proof fn a_stack_that_is_given_up_keeps_its_window(m: StackModel)
    requires
        m.windows.len() == 1,
    ensures
        m.given_up().windows.len() == 1,
        m.given_up().windows[0].id == m.windows[0].id,
        !m.given_up().windows[0].force_undecorated && !m.given_up().windows[0].tiled,
        !m.given_up().override_alive,
        m.given_up().active == m.active,
{
}

/// The corners of a stack are round unless it is tiled and tiled windows are not clipped, or the
/// shown window is maximised.
pub proof fn maximised_stacks_have_square_corners(m: StackModel)
    ensures
        m.active_window().maximized ==> !m.rounded(),
        !m.active_window().maximized && !m.tiled ==> m.rounded(),
        !m.active_window().maximized && m.tiled ==> m.rounded()
            == m.appearance_conf.clip_tiled_windows,
{
}

/// Telling windows changes nothing else of them.
pub proof fn telling_windows_changes_nothing_else(
    w: CosmicSurface,
    on: bool,
    other: bool,
    geo: Rectangle,
    header: u32,
)
    ensures
        w.with_activation(on).activated == on && w.with_activation(on).configure,
        w.with_activation(on).suspended == w.suspended && w.with_activation(on).id == w.id
            && w.with_activation(on).geometry == w.geometry && w.with_activation(on).tiled
            == w.tiled && w.with_activation(on).alive == w.alive,
        w.with_suspension(on).suspended == on && w.with_suspension(on).configure,
        w.with_suspension(on).activated == w.activated && w.with_suspension(on).id == w.id
            && w.with_suspension(on).alive == w.alive,
        w.with_chrome(on, other).force_undecorated == on && w.with_chrome(on, other).tiled == other
            && w.with_chrome(on, other).id == w.id && w.with_chrome(on, other).activated
            == w.activated && w.with_chrome(on, other).alive == w.alive
            && w.with_chrome(on, other).wl_surface == w.wl_surface,
        w.with_geometry(geo, header).requested matches Some(q) && q.geometry == geo && q.header
            == header,
        w.with_geometry(geo, header).geometry == w.geometry && w.with_geometry(geo, header).id
            == w.id,
{
}

/// The tab that is recorded is the shown one, unless one was already recorded for the same change
/// of the modifiers; without a change nothing is recorded.
pub proof fn the_shown_tab_is_recorded(m: StackModel, serial: u32)
    requires
        m.wf(),
        m.windows.len() <= usize::MAX,
    ensures
        m.recalled(None) is None,
        m.previous_index is None ==> (m.recalled(Some(serial)) matches Some(p) && p.serial == serial
            && p.index == m.active),
        m.previous_index matches Some(q) ==> (q.serial == serial ==> m.recalled(Some(serial))
            == Some(q)) && (q.serial != serial ==> (m.recalled(Some(serial)) matches Some(p)
            && p.serial == serial && p.index == m.active)),
{
}

/// An added window leaves a record of the tab that was shown, and of what had the keyboard where
/// it takes the place of the shown one.
pub proof fn an_added_window_is_recorded(
    m: StackModel,
    window: CosmicSurface,
    idx: Option<usize>,
    serial: u32,
)
    requires
        m.wf(),
        m.windows.len() < usize::MAX,
        idx matches Some(i) ==> i <= m.windows.len(),
    ensures
        ({
            let after = m.with_added(window, idx, Some(serial));
            let other = m.with_added(window, idx, None);
            let takes_place = idx matches Some(i) && i == m.active;
            &&& other.previous_index is None
            &&& m.previous_index is None ==> (after.previous_index matches Some(p) && p.serial
                == serial && p.index == m.active)
            &&& m.previous_index matches Some(q) ==> q.serial == serial ==> after.previous_index
                == Some(q)
            &&& takes_place ==> after.reenter && after.previous_keyboard == m.active
            &&& !takes_place ==> after.reenter == m.reenter && after.previous_keyboard
                == m.previous_keyboard
            &&& after.stack_id == m.stack_id && after.pointer_entered == m.pointer_entered
                && after.potential_drag == m.potential_drag && after.tiled == m.tiled
                && after.appearance_conf == m.appearance_conf
        }),
{
}

/// A window is added where there is room for one more, behind the last one at most, and the area
/// below the tabs has coordinates.
pub proof fn windows_can_be_added_up_to_the_end(m: StackModel, idx: Option<usize>, geo: Rectangle)
    requires
        m.geometry is None || (m.geometry == Some(geo) && -1000000 <= geo.loc.y <= 1000000
            && -1000000 <= geo.size.h <= 1000000),
        m.windows.len() < usize::MAX,
    ensures
        m.can_add(None),
        idx matches Some(i) ==> (m.can_add(idx) <==> i <= m.windows.len()),
{
}

/// A move of the focus records the tab, and leaves all but the tabs, the records and the focus of
/// the whole as it was.
pub proof fn moving_the_focus_keeps_the_rest(
    m: StackModel,
    direction: FocusDirection,
    swapping: bool,
    serial: Option<u32>,
)
    requires
        m.wf(),
    ensures
        ({
            let (after, handled) = m.focus_moved(direction, swapping, serial);
            &&& after.previous_index == m.recalled(serial)
            &&& after.stack_id == m.stack_id
            &&& after.activated == m.activated
            &&& after.pointer_entered == m.pointer_entered
            &&& after.reenter == m.reenter
            &&& after.potential_drag == m.potential_drag
            &&& after.override_alive == m.override_alive
            &&& after.geometry == m.geometry
            &&& after.tiled == m.tiled
            &&& after.appearance_conf == m.appearance_conf
            &&& after.active != m.active ==> after.previous_keyboard == m.active
                && after.scroll_to_focus
            &&& after.active == m.active && !(direction is Left || direction is Right)
                ==> after.previous_keyboard == m.previous_keyboard && after.scroll_to_focus
                == m.scroll_to_focus
        }),
{
}

/// Moving the shown window keeps all but the windows, which of them is shown, and what follows
/// from that.
pub proof fn moving_a_window_keeps_the_rest(m: StackModel, direction: Direction)
    requires
        m.wf(),
    ensures
        ({
            let (after, result) = m.moved(direction);
            &&& after.stack_id == m.stack_id
            &&& after.activated == m.activated
            &&& after.group_focused == m.group_focused
            &&& after.previous_index == m.previous_index
            &&& after.pointer_entered == m.pointer_entered
            &&& after.reenter == m.reenter
            &&& after.potential_drag == m.potential_drag
            &&& after.override_alive == m.override_alive
            &&& after.geometry == m.geometry
            &&& after.tiled == m.tiled
            &&& after.appearance_conf == m.appearance_conf
            &&& after.active != m.active ==> after.scroll_to_focus
            &&& result is Handled ==> after.previous_keyboard == m.active && after.scroll_to_focus
            &&& !(result is Handled) ==> after.previous_keyboard == m.previous_keyboard
            &&& result is Default ==> after == m
            &&& result is MoveOut && m.active < m.windows.len() - 1 && m.previous_index is None
                ==> after.scroll_to_focus == m.scroll_to_focus
        }),
{
}

/// A window that is moved out may land the stack on the recorded tab only where that is left;
/// else the stack shows the tab at its place, or the last one where that place is gone.
pub proof fn the_stack_lands_on_a_tab_that_is_left(m: StackModel)
    requires
        m.wf(),
        m.windows.len() > 1,
    ensures
        ({
            let after = m.active_moved_out();
            let left = m.windows.len() - 1;
            let usable = m.previous_index matches Some(p) && p.index < left;
            &&& after.wf()
            &&& usable ==> after.active == m.previous_index->0.index
            &&& !usable && m.active < left ==> after.active == m.active
            &&& !usable && m.active == left ==> after.active == left - 1
            &&& usable || m.active == left ==> after.scroll_to_focus
        }),
{
}

/// Only the shown window is told that it is active, and only where the stack is; nothing else of
/// a window changes by that.
pub proof fn only_the_shown_window_is_told(m: StackModel, on: bool, k: int)
    requires
        m.wf(),
        0 <= k < m.windows.len(),
    ensures
        ({
            let after = m.with_activation(on);
            &&& after.windows.len() == m.windows.len()
            &&& after.windows[k].activated == (on && k == m.active)
            &&& after.windows[k].configure
            &&& after.windows[k].id == m.windows[k].id
            &&& after.windows[k].suspended == m.windows[k].suspended
            &&& after.windows[k].alive == m.windows[k].alive
            &&& after.windows[k].geometry == m.windows[k].geometry
            &&& after.active == m.active
            &&& after.group_focused == m.group_focused
        }),
{
}

/// A tab takes the area of its stack below the tabs, which are 24 pixels high.
pub proof fn tabs_take_the_area_below_the_tab_bar(geo: Rectangle)
    requires
        geo.loc.y + 24 <= i32::MAX,
        geo.size.h - 24 >= i32::MIN,
    ensures
        stack::fits_below_tabs(geo),
        ({
            let below = stack::area_below_tabs(geo);
            &&& below.loc.x == geo.loc.x
            &&& below.loc.y == geo.loc.y + 24
            &&& below.size.w == geo.size.w
            &&& below.size.h + 24 == geo.size.h
        }),
{
}

/// Of two limits the lower one holds, and zero is no limit.
pub proof fn the_lower_limit_holds(a: i32, b: i32)
    ensures
        stack::tighter(a, 0) == a,
        stack::tighter(0, b) == b,
        a > 0 && b > 0 ==> stack::tighter(a, b) <= a && stack::tighter(a, b) <= b && (
        stack::tighter(a, b) == a || stack::tighter(a, b) == b),
{
}

/// A position on a stack is on its tabs right below its top, in the middle, and on no part of
/// the frame in the middle of the window.
pub proof fn the_tabs_are_above_the_window(m: StackModel, location: Point, size: Size)
    requires
        m.wf(),
        m.active_window().geometry.size == size,
        m.active_window().geometry.loc == (Point { x: 0, y: 0 }),
        8 <= location.x < size.w - 8,
        size.h > 0,
        24 + size.h <= i32::MAX,
    ensures
        8 <= location.y < 24 ==> m.frame_at(location) == Some(
            crate::shell::element::window::Focus::Header,
        ),
        24 <= location.y < 24 + size.h ==> m.frame_at(location) is None,
        location.y < 0 ==> m.frame_at(location) == Some(
            crate::shell::element::window::Focus::ResizeTop,
        ),
        location.y >= 24 + size.h ==> m.frame_at(location) == Some(
            crate::shell::element::window::Focus::ResizeBottom,
        ),
{
    crate::shell::element::window::the_client_area_has_no_frame(size, 24, location);
}

} // verus!
