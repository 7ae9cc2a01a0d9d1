//! What the shell is told of menus, and what its answers ask for.

use crate::shell::grabs::menu::Item;
use crate::shell::zoom::ZoomMovement;
use crate::wayland::handlers::shell_overlay as handlers;
use crate::wayland::handlers::shell_overlay::{ActiveWindow, HeaderAction, LayoutMode, StackTabs};
use crate::wayland::protocols::shell_overlay;
use crate::wayland::protocols::shell_overlay::{ContextMenuItem, EventModel, WindowAction};
use vstd::prelude::*;

verus! {

/// An entry of a menu is told with its action, its marks and its keys; no keys are an empty text.
pub proof fn entries_are_told_as_they_are(
    menu_id: u32,
    x: i32,
    y: i32,
    items: Seq<ContextMenuItem>,
    i: int,
)
    requires
        0 <= i < items.len() <= u32::MAX,
    ensures
        ({
            let events = shell_overlay::menu_events(menu_id, x, y, items);
            let told = events[i + 1];
            &&& events.len() == items.len() + 2
            &&& events[0] == (EventModel::ContextMenuBegin { menu_id, x, y })
            &&& events.last() == (EventModel::ContextMenuDone { menu_id })
            &&& items[i] is Separator ==> told == (EventModel::ContextMenuSeparator {
                menu_id,
                index: i as u32,
            })
            &&& items[i] matches ContextMenuItem::Entry { action, toggled, disabled, shortcut }
                ==> (told matches EventModel::ContextMenuItem {
                menu_id: m,
                index,
                action: number,
                toggled: on,
                disabled: off,
                shortcut: keys,
            } && m == menu_id && index == i && number == action.number() && (on == 1 <==> toggled)
                && on <= 1 && (off == 1 <==> disabled) && off <= 1 && (shortcut matches Some(s)
                ==> keys == s@) && (shortcut is None ==> keys.len() == 0))
        }),
{
}

/// The actions of windows are numbered in their order, from one on: those on its state, moving
/// and resizing, stacks, pictures, workspaces and closing.
pub proof fn actions_are_numbered_in_their_order(action: WindowAction)
    ensures
        action == WindowAction::Minimize <==> action.number() == 1,
        action == WindowAction::Maximize <==> action.number() == 2,
        action == WindowAction::Fullscreen <==> action.number() == 3,
        action == WindowAction::Tiled <==> action.number() == 4,
        action == WindowAction::Move <==> action.number() == 5,
        action == WindowAction::ResizeTop <==> action.number() == 6,
        action == WindowAction::ResizeLeft <==> action.number() == 7,
        action == WindowAction::ResizeRight <==> action.number() == 8,
        action == WindowAction::ResizeBottom <==> action.number() == 9,
        action == WindowAction::Stack <==> action.number() == 10,
        action == WindowAction::Unstack <==> action.number() == 11,
        action == WindowAction::UnstackAll <==> action.number() == 12,
        action == WindowAction::Screenshot <==> action.number() == 13,
        action == WindowAction::MovePrevWorkspace <==> action.number() == 14,
        action == WindowAction::MoveNextWorkspace <==> action.number() == 15,
        action == WindowAction::Sticky <==> action.number() == 16,
        action == WindowAction::Close <==> action.number() == 17,
        action == WindowAction::CloseAll <==> action.number() == 18,
{
}

/// The number of an entry chooses that entry; a line, a menu below and a number of no item choose
/// nothing.
pub proof fn entries_are_chosen_by_their_number(items: Seq<Item>, index: u32)
    ensures
        index < items.len() && items[index as int] is Entry ==> handlers::chosen_entry(
            items,
            index as int,
        ) == Some(index as usize),
        index < items.len() && !(items[index as int] is Entry) ==> handlers::chosen_entry(
            items,
            index as int,
        ) is None,
        index >= items.len() ==> handlers::chosen_entry(items, index as int) is None,
{
}

/// The view moves continuously, at its edges, or with the pointer in its middle: one, two and
/// three. Other numbers stand for nothing.
pub proof fn movements_are_numbered(mode: u32)
    ensures
        handlers::movement_numbered(mode) == Some(ZoomMovement::Continuously) <==> mode == 1,
        handlers::movement_numbered(mode) == Some(ZoomMovement::OnEdge) <==> mode == 2,
        handlers::movement_numbered(mode) == Some(ZoomMovement::Centered) <==> mode == 3,
        handlers::movement_numbered(mode) is None <==> mode == 0 || mode > 3,
{
}

/// A window is found by its surface, the first one with it.
pub proof fn windows_are_found_by_their_surface(
    windows: Seq<ActiveWindow>,
    surface_id: u32,
    k: int,
)
    ensures
        0 <= k < windows.len() && windows[k].surface_id == Some(surface_id) && (forall|i: int|
            0 <= i < k ==> (#[trigger] windows[i]).surface_id != Some(surface_id))
            ==> handlers::window_with(windows, surface_id) == Some(windows[k]),
        (forall|i: int|
            0 <= i < windows.len() ==> (#[trigger] windows[i]).surface_id != Some(surface_id))
            ==> handlers::window_with(windows, surface_id) is None,
    decreases windows.len(),
{
    if windows.len() > 0 && windows[0].surface_id != Some(surface_id) {
        let rest = windows.skip(1);
        assert forall|i: int| 0 <= i < rest.len() implies #[trigger] rest[i] == windows[i
            + 1] by {}
        windows_are_found_by_their_surface(rest, surface_id, k - 1);
    }
}

/// The buttons of a header minimise, maximise or restore, close and move the window: one, two,
/// three and four.
pub proof fn header_buttons_act_on_their_window(w: ActiveWindow, action: u32)
    ensures
        ({
            let r = handlers::header_action(w, action);
            &&& action == 1 <==> r == (HeaderAction::Minimize { window: w.window })
            &&& action == 2 && w.maximized ==> r == (HeaderAction::SetMaximized {
                window: w.window,
                maximized: false,
            })
            &&& action == 2 && !w.maximized ==> r == (HeaderAction::SetMaximized {
                window: w.window,
                maximized: true,
            })
            &&& action == 3 <==> r == (HeaderAction::Close { window: w.window })
            &&& action == 4 <==> r == (HeaderAction::Move { window: w.window })
            &&& action == 0 || action > 4 <==> r is UnknownAction
        }),
{
}

/// Layouts are numbered in the order floating, tiling, one window at a time.
pub proof fn layouts_are_numbered(mode: LayoutMode)
    ensures
        mode == LayoutMode::Floating <==> mode.number() == 0,
        mode == LayoutMode::Tiling <==> mode.number() == 1,
        mode == LayoutMode::Monocle <==> mode.number() == 2,
{
}

/// A stack has a tab for each of its windows.
pub proof fn stacks_have_a_tab_for_each_window(stack: StackTabs, stack_id: u32, index: u32)
    ensures
        handlers::has_tab(stack, stack_id, index as int) <==> stack.stack_id == stack_id && index
            < stack.windows@.len(),
{
}

/// A truth value is told as one or zero.
pub proof fn truth_is_told_as_a_number(b: bool)
    ensures
        b ==> shell_overlay::flag(b) == 1,
        !b ==> shell_overlay::flag(b) == 0,
{
}

} // verus!
