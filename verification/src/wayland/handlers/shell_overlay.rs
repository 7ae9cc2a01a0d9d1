//! What the shell asks of the compositor.

use crate::config::comp::ZoomConfig;
use crate::shell::grabs::menu::Item;
use crate::shell::zoom::ZoomMovement;
use std::collections::HashMap;
use vstd::prelude::*;

verus! {

/// What follows from the choice of an item of a menu.
#[derive(Clone, Copy, Debug, PartialEq, Eq, Structural)]
pub enum MenuOutcome {
    /// Nothing: there is no such menu.
    UnknownMenu,
    /// The menu is closed, and the grab of the pointer ends. The entry with the given number was
    /// chosen, if one was.
    Closed { chosen: Option<usize> },
}

/// The entry that a number stands for: items that are not entries, and numbers of no item, stand
/// for none.
pub open spec fn chosen_entry(items: Seq<Item>, index: int) -> Option<usize> {
    if index < items.len() && items[index] is Entry {
        Some(index as usize)
    } else {
        None
    }
}

/// The shell reports that an item of a menu was chosen.
pub fn context_menu_activate(pending: &mut HashMap<u32, Vec<Item>>, menu_id: u32, index: u32) -> (r:
    MenuOutcome)
    ensures
        final(pending)@ == old(pending)@.remove(menu_id),
        r == if old(pending)@.contains_key(menu_id) {
            MenuOutcome::Closed {
                chosen: chosen_entry(old(pending)@[menu_id]@, index as int),
            }
        } else {
            MenuOutcome::UnknownMenu
        },
{
    broadcast use vstd::std_specs::hash::group_hash_axioms;

    match pending.remove(&menu_id) {
        Some(items) => {
            let i: usize = index as usize;
            let chosen: Option<usize> = if i < items.len() {
                match &items[i] {
                    Item::Entry { .. } => Some(i),
                    _ => None,
                }
            } else {
                None
            };
            MenuOutcome::Closed { chosen }
        },
        None => {
            assert(pending@ =~= old(pending)@.remove(menu_id));
            MenuOutcome::UnknownMenu
        },
    }
}

/// The shell reports that a menu was closed without a choice.
pub fn context_menu_dismiss(pending: &mut HashMap<u32, Vec<Item>>, menu_id: u32) -> (r: MenuOutcome)
    ensures
        final(pending)@ == old(pending)@.remove(menu_id),
        r == (MenuOutcome::Closed { chosen: None }),
{
    broadcast use vstd::std_specs::hash::group_hash_axioms;

    pending.remove(&menu_id);
    assert(pending@ =~= old(pending)@.remove(menu_id));
    MenuOutcome::Closed { chosen: None }
}

/// The menu that holds the grab of a seat's pointer.
#[derive(Clone, Copy, Debug, PartialEq, Eq, Structural)]
pub struct SeatMenu {
    pub seat: u64,
    pub menu_id: Option<u32>,
}

/// The first seat whose pointer is grabbed by the given menu.
pub fn unset_overlay_grab(seats: &Vec<SeatMenu>, menu_id: u32) -> (r: Option<u64>)
    ensures
        match r {
            Some(seat) => exists|i: int|
                0 <= i < seats@.len() && (#[trigger] seats@[i]).seat == seat && seats@[i].menu_id
                    == Some(menu_id) && forall|j: int|
                    0 <= j < i ==> (#[trigger] seats@[j]).menu_id != Some(menu_id),
            None => forall|i: int|
                0 <= i < seats@.len() ==> (#[trigger] seats@[i]).menu_id != Some(menu_id),
        },
{
    let mut i: usize = 0;
    while i < seats.len()
        invariant
            i <= seats@.len(),
            forall|j: int| 0 <= j < i ==> (#[trigger] seats@[j]).menu_id != Some(menu_id),
        decreases seats@.len() - i,
    {
        if seats[i].menu_id == Some(menu_id) {
            return Some(seats[i].seat);
        }
        i += 1;
    }
    None
}

/// The change of the magnification that the shell asks for, in percent.
pub fn zoom_change(zoom: &ZoomConfig, increase: bool) -> (r: i64)
    ensures
        r == if increase {
            zoom.increment as int
        } else {
            -(zoom.increment as int)
        },
{
    if increase {
        zoom.increment as i64
    } else {
        -(zoom.increment as i64)
    }
}

/// The shell closes the controls of the magnifier.
pub fn zoom_close(zoom: &mut ZoomConfig)
    ensures
        *final(zoom) == (ZoomConfig { show_overlay: false, ..*old(zoom) }),
{
    zoom.show_overlay = false;
}

/// The shell changes the step of the magnifier.
pub fn zoom_set_increment(zoom: &mut ZoomConfig, value: u32)
    ensures
        *final(zoom) == (ZoomConfig { increment: value, ..*old(zoom) }),
{
    zoom.increment = value;
}

/// How the magnified view follows the pointer, by its number in the protocol.
pub open spec fn movement_numbered(mode: u32) -> Option<ZoomMovement> {
    if mode == 1 {
        Some(ZoomMovement::Continuously)
    } else if mode == 2 {
        Some(ZoomMovement::OnEdge)
    } else if mode == 3 {
        Some(ZoomMovement::Centered)
    } else {
        None
    }
}

/// The shell changes how the magnified view follows the pointer; returns whether it could.
pub fn zoom_set_movement(zoom: &mut ZoomConfig, mode: u32) -> (r: bool)
    ensures
        r == (movement_numbered(mode) is Some),
        *final(zoom) == match movement_numbered(mode) {
            Some(view_moves) => ZoomConfig { view_moves, ..*old(zoom) },
            None => *old(zoom),
        },
{
    let movement: ZoomMovement = match mode {
        1 => ZoomMovement::Continuously,
        2 => ZoomMovement::OnEdge,
        3 => ZoomMovement::Centered,
        _ => {
            return false;
        },
    };
    zoom.view_moves = movement;
    true
}

/// The active window of an element.
#[derive(Clone, Copy, Debug, PartialEq, Eq, Structural)]
pub struct ActiveWindow {
    pub window: u64,
    /// The surface of the window, by its number in the protocol.
    pub surface_id: Option<u32>,
    pub maximized: bool,
}

/// What a button of a header asks for.
#[derive(Clone, Copy, Debug, PartialEq, Eq, Structural)]
pub enum HeaderAction {
    /// Nothing: there is no window with that surface.
    UnknownSurface,
    Minimize { window: u64 },
    SetMaximized { window: u64, maximized: bool },
    Close { window: u64 },
    /// Move the window with the pointer.
    Move { window: u64 },
    /// Nothing: there is no such action.
    UnknownAction,
}

/// The first window with the given surface.
pub open spec fn window_with(windows: Seq<ActiveWindow>, surface_id: u32) -> Option<ActiveWindow>
    decreases windows.len(),
{
    if windows.len() == 0 {
        None
    } else if windows[0].surface_id == Some(surface_id) {
        Some(windows[0])
    } else {
        window_with(windows.skip(1), surface_id)
    }
}

/// What a button of the header of a window asks for, by its number in the protocol.
pub open spec fn header_action(window: ActiveWindow, action: u32) -> HeaderAction {
    if action == 1 {
        HeaderAction::Minimize { window: window.window }
    } else if action == 2 {
        HeaderAction::SetMaximized { window: window.window, maximized: !window.maximized }
    } else if action == 3 {
        HeaderAction::Close { window: window.window }
    } else if action == 4 {
        HeaderAction::Move { window: window.window }
    } else {
        HeaderAction::UnknownAction
    }
}

/// The shell reports that a button of the header of a window was pressed.
pub fn window_header_action(windows: &Vec<ActiveWindow>, surface_id: u32, action: u32) -> (r:
    HeaderAction)
    ensures
        r == match window_with(windows@, surface_id) {
            Some(window) => header_action(window, action),
            None => HeaderAction::UnknownSurface,
        },
{
    let mut i: usize = 0;
    assert(windows@.skip(0) =~= windows@);
    while i < windows.len()
        invariant
            i <= windows@.len(),
            window_with(windows@, surface_id) == window_with(
                windows@.skip(i as int),
                surface_id,
            ),
        decreases windows@.len() - i,
    {
        assert(windows@.skip(i as int).skip(1) =~= windows@.skip(i + 1));
        let window: ActiveWindow = windows[i];
        if window.surface_id == Some(surface_id) {
            return match action {
                1 => HeaderAction::Minimize { window: window.window },
                2 => HeaderAction::SetMaximized {
                    window: window.window,
                    maximized: !window.maximized,
                },
                3 => HeaderAction::Close { window: window.window },
                4 => HeaderAction::Move { window: window.window },
                _ => HeaderAction::UnknownAction,
            };
        }
        i += 1;
    }
    HeaderAction::UnknownSurface
}

/// How the windows of a workspace are laid out.
#[derive(Clone, Copy, Debug, PartialEq, Eq, Structural)]
pub enum LayoutMode {
    Floating,
    Tiling,
    /// One window at a time.
    Monocle,
}

impl LayoutMode {
    /// The number of the mode in the protocol.
    pub open spec fn number(self) -> u32 {
        match self {
            LayoutMode::Floating => 0,
            LayoutMode::Tiling => 1,
            LayoutMode::Monocle => 2,
        }
    }

    /// The number of the mode in the protocol.
    pub fn code(self) -> (r: u32)
        ensures
            r == self.number(),
    {
        match self {
            LayoutMode::Floating => 0,
            LayoutMode::Tiling => 1,
            LayoutMode::Monocle => 2,
        }
    }

    /// The mode with the given number.
    pub fn from_code(mode: u32) -> (r: Option<LayoutMode>)
        ensures
            match r {
                Some(m) => m.number() == mode,
                None => mode > 2,
            },
    {
        match mode {
            0 => Some(LayoutMode::Floating),
            1 => Some(LayoutMode::Tiling),
            2 => Some(LayoutMode::Monocle),
            _ => None,
        }
    }
}

/// What a change of the layout of a workspace begins with.
#[derive(Clone, Copy, Debug, PartialEq, Eq, Structural)]
pub enum LayoutChange {
    /// Nothing: there is no such mode, or it is the one of the workspace.
    Keep,
    /// Show one window at a time.
    EnterMonocle,
    /// Show all windows again, where one at a time was shown, and then tile them or not.
    Arrange { exit_monocle: bool, tiling: bool },
}

/// The shell asks for another layout of a workspace; returns what that begins with.
pub fn set_layout_mode(current: LayoutMode, mode: u32) -> (r: LayoutChange)
    ensures
        r == if mode > 2 || mode == current.number() {
            LayoutChange::Keep
        } else if mode == LayoutMode::Monocle.number() {
            LayoutChange::EnterMonocle
        } else {
            LayoutChange::Arrange {
                exit_monocle: current == LayoutMode::Monocle,
                tiling: mode == LayoutMode::Tiling.number(),
            }
        },
{
    match LayoutMode::from_code(mode) {
        None => LayoutChange::Keep,
        Some(target) => {
            if target == current {
                return LayoutChange::Keep;
            }
            match target {
                LayoutMode::Monocle => LayoutChange::EnterMonocle,
                LayoutMode::Tiling => LayoutChange::Arrange {
                    exit_monocle: current == LayoutMode::Monocle,
                    tiling: true,
                },
                LayoutMode::Floating => LayoutChange::Arrange {
                    exit_monocle: current == LayoutMode::Monocle,
                    tiling: false,
                },
            }
        },
    }
}

/// Whether tiling is switched, and to what, where the windows are to be tiled or not and tiling
/// is on or not.
pub fn tiling_switch(tiling: bool, tiling_enabled: bool) -> (r: Option<bool>)
    ensures
        r == if tiling == tiling_enabled {
            None
        } else {
            Some(tiling)
        },
{
    if tiling == tiling_enabled {
        None
    } else {
        Some(tiling)
    }
}

/// The windows of a stack.
#[derive(Debug, PartialEq, Eq)]
pub struct StackTabs {
    pub stack_id: u32,
    pub windows: Vec<u64>,
}

/// Whether a stack has the given number and a tab with the given number.
pub open spec fn has_tab(stack: StackTabs, stack_id: u32, index: int) -> bool {
    stack.stack_id == stack_id && index < stack.windows@.len()
}

/// The shell activates a tab; returns the stack and the window, where there is such a tab.
pub fn tab_activate(stacks: &Vec<StackTabs>, stack_id: u32, index: u32) -> (r: Option<
    (usize, u64),
>)
    ensures
        match r {
            Some((i, window)) => i < stacks@.len() && has_tab(
                stacks@[i as int],
                stack_id,
                index as int,
            ) && window == stacks@[i as int].windows@[index as int] && forall|j: int|
                0 <= j < i ==> !has_tab(#[trigger] stacks@[j], stack_id, index as int),
            None => forall|j: int|
                0 <= j < stacks@.len() ==> !has_tab(
                    #[trigger] stacks@[j],
                    stack_id,
                    index as int,
                ),
        },
{
    let mut i: usize = 0;
    while i < stacks.len()
        invariant
            i <= stacks@.len(),
            forall|j: int|
                0 <= j < i ==> !has_tab(#[trigger] stacks@[j], stack_id, index as int),
        decreases stacks@.len() - i,
    {
        if stacks[i].stack_id == stack_id && (index as usize) < stacks[i].windows.len() {
            return Some((i, stacks[i].windows[index as usize]));
        }
        i += 1;
    }
    None
}

/// The numbers of the layouts tell them apart.
pub proof fn layout_numbers_are_distinct(a: LayoutMode, b: LayoutMode)
    ensures
        a.number() == b.number() ==> a == b,
{
}

/// A menu is closed once: after a choice or a dismissal there is no such menu any more.
pub proof fn menus_close_once(pending: Map<u32, Vec<Item>>, menu_id: u32)
    ensures
        !pending.remove(menu_id).contains_key(menu_id),
{
}

} // verus!
