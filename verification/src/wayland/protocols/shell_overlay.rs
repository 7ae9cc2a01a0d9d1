//! The state behind the protocol by which the shell draws menus and tab bars for the compositor.

use crate::seqs::{copied, without};
use vstd::prelude::*;

verus! {

/// What an entry of a window's menu does.
#[derive(Clone, Copy, Debug, PartialEq, Eq, Structural)]
pub enum WindowAction {
    /// Minimise the window.
    Minimize,
    /// Maximise or restore the window.
    Maximize,
    /// Show the window on the whole screen, or not.
    Fullscreen,
    /// Tile the window, or not.
    Tiled,
    /// Move the window with the pointer.
    Move,
    /// Resize the window from its top.
    ResizeTop,
    /// Resize the window from its left edge.
    ResizeLeft,
    /// Resize the window from its right edge.
    ResizeRight,
    /// Resize the window from its bottom.
    ResizeBottom,
    /// Put the window into a stack.
    Stack,
    /// Take the window out of its stack.
    Unstack,
    /// Take the stack apart.
    UnstackAll,
    /// Take a picture of the window.
    Screenshot,
    /// Move the window to the workspace before.
    MovePrevWorkspace,
    /// Move the window to the next workspace.
    MoveNextWorkspace,
    /// Show the window on all workspaces, or not.
    Sticky,
    /// Close the window.
    Close,
    /// Close all windows of the stack.
    CloseAll,
}

impl WindowAction {
    /// The number of the action in the protocol.
    pub open spec fn number(self) -> u32 {
        match self {
            WindowAction::Minimize => 1,
            WindowAction::Maximize => 2,
            WindowAction::Fullscreen => 3,
            WindowAction::Tiled => 4,
            WindowAction::Move => 5,
            WindowAction::ResizeTop => 6,
            WindowAction::ResizeLeft => 7,
            WindowAction::ResizeRight => 8,
            WindowAction::ResizeBottom => 9,
            WindowAction::Stack => 10,
            WindowAction::Unstack => 11,
            WindowAction::UnstackAll => 12,
            WindowAction::Screenshot => 13,
            WindowAction::MovePrevWorkspace => 14,
            WindowAction::MoveNextWorkspace => 15,
            WindowAction::Sticky => 16,
            WindowAction::Close => 17,
            WindowAction::CloseAll => 18,
        }
    }

    /// The number of the action in the protocol.
    pub fn code(self) -> (r: u32)
        ensures
            r == self.number(),
    {
        match self {
            WindowAction::Minimize => 1,
            WindowAction::Maximize => 2,
            WindowAction::Fullscreen => 3,
            WindowAction::Tiled => 4,
            WindowAction::Move => 5,
            WindowAction::ResizeTop => 6,
            WindowAction::ResizeLeft => 7,
            WindowAction::ResizeRight => 8,
            WindowAction::ResizeBottom => 9,
            WindowAction::Stack => 10,
            WindowAction::Unstack => 11,
            WindowAction::UnstackAll => 12,
            WindowAction::Screenshot => 13,
            WindowAction::MovePrevWorkspace => 14,
            WindowAction::MoveNextWorkspace => 15,
            WindowAction::Sticky => 16,
            WindowAction::Close => 17,
            WindowAction::CloseAll => 18,
        }
    }

    /// The action with the given number; an error where there is none.
    pub fn try_from(value: u32) -> (r: Result<WindowAction, ()>)
        ensures
            match r {
                Ok(action) => action.number() == value,
                Err(_) => value == 0 || value > 18,
            },
    {
        match value {
            1 => Ok(WindowAction::Minimize),
            2 => Ok(WindowAction::Maximize),
            3 => Ok(WindowAction::Fullscreen),
            4 => Ok(WindowAction::Tiled),
            5 => Ok(WindowAction::Move),
            6 => Ok(WindowAction::ResizeTop),
            7 => Ok(WindowAction::ResizeLeft),
            8 => Ok(WindowAction::ResizeRight),
            9 => Ok(WindowAction::ResizeBottom),
            10 => Ok(WindowAction::Stack),
            11 => Ok(WindowAction::Unstack),
            12 => Ok(WindowAction::UnstackAll),
            13 => Ok(WindowAction::Screenshot),
            14 => Ok(WindowAction::MovePrevWorkspace),
            15 => Ok(WindowAction::MoveNextWorkspace),
            16 => Ok(WindowAction::Sticky),
            17 => Ok(WindowAction::Close),
            18 => Ok(WindowAction::CloseAll),
            _ => Err(()),
        }
    }
}

/// An item of a menu.
#[derive(Debug, PartialEq, Eq)]
pub enum ContextMenuItem {
    /// A line between entries.
    Separator,
    Entry {
        action: WindowAction,
        /// Whether the entry is marked as on.
        toggled: bool,
        /// Whether the entry cannot be chosen.
        disabled: bool,
        /// The keys that do the same.
        shortcut: Option<String>,
    },
}

/// What the shell is told.
#[derive(Debug, PartialEq, Eq)]
pub enum OverlayEvent {
    ContextMenuBegin { menu_id: u32, x: i32, y: i32 },
    ContextMenuSeparator { menu_id: u32, index: u32 },
    ContextMenuItem {
        menu_id: u32,
        index: u32,
        action: u32,
        toggled: u32,
        disabled: u32,
        shortcut: String,
    },
    ContextMenuDone { menu_id: u32 },
    ContextMenuClosed { menu_id: u32 },
    TabBarShow { stack_id: u32, x: i32, y: i32, width: i32, height: i32 },
    TabBarHide { stack_id: u32 },
    TabAdded { stack_id: u32, index: u32, title: String, app_id: String, active: u32 },
    TabRemoved { stack_id: u32, index: u32 },
    TabActivated { stack_id: u32, index: u32 },
    TabTitleChanged { stack_id: u32, index: u32, title: String },
    LayoutModeChanged { mode: u32 },
}

/// The model of what the shell is told.
#[verifier::ext_equal]
pub enum EventModel {
    ContextMenuBegin { menu_id: u32, x: i32, y: i32 },
    ContextMenuSeparator { menu_id: u32, index: u32 },
    ContextMenuItem {
        menu_id: u32,
        index: u32,
        action: u32,
        toggled: u32,
        disabled: u32,
        shortcut: Seq<char>,
    },
    ContextMenuDone { menu_id: u32 },
    ContextMenuClosed { menu_id: u32 },
    TabBarShow { stack_id: u32, x: i32, y: i32, width: i32, height: i32 },
    TabBarHide { stack_id: u32 },
    TabAdded { stack_id: u32, index: u32, title: Seq<char>, app_id: Seq<char>, active: u32 },
    TabRemoved { stack_id: u32, index: u32 },
    TabActivated { stack_id: u32, index: u32 },
    TabTitleChanged { stack_id: u32, index: u32, title: Seq<char> },
    LayoutModeChanged { mode: u32 },
}

impl View for OverlayEvent {
    type V = EventModel;

    open spec fn view(&self) -> EventModel {
        match *self {
            OverlayEvent::ContextMenuBegin { menu_id, x, y } => EventModel::ContextMenuBegin {
                menu_id,
                x,
                y,
            },
            OverlayEvent::ContextMenuSeparator { menu_id, index } => {
                EventModel::ContextMenuSeparator { menu_id, index }
            },
            OverlayEvent::ContextMenuItem {
                menu_id,
                index,
                action,
                toggled,
                disabled,
                shortcut,
            } => EventModel::ContextMenuItem {
                menu_id,
                index,
                action,
                toggled,
                disabled,
                shortcut: shortcut@,
            },
            OverlayEvent::ContextMenuDone { menu_id } => EventModel::ContextMenuDone { menu_id },
            OverlayEvent::ContextMenuClosed { menu_id } => {
                EventModel::ContextMenuClosed { menu_id }
            },
            OverlayEvent::TabBarShow { stack_id, x, y, width, height } => EventModel::TabBarShow {
                stack_id,
                x,
                y,
                width,
                height,
            },
            OverlayEvent::TabBarHide { stack_id } => EventModel::TabBarHide { stack_id },
            OverlayEvent::TabAdded { stack_id, index, title, app_id, active } => {
                EventModel::TabAdded { stack_id, index, title: title@, app_id: app_id@, active }
            },
            OverlayEvent::TabRemoved { stack_id, index } => {
                EventModel::TabRemoved { stack_id, index }
            },
            OverlayEvent::TabActivated { stack_id, index } => {
                EventModel::TabActivated { stack_id, index }
            },
            OverlayEvent::TabTitleChanged { stack_id, index, title } => {
                EventModel::TabTitleChanged { stack_id, index, title: title@ }
            },
            OverlayEvent::LayoutModeChanged { mode } => EventModel::LayoutModeChanged { mode },
        }
    }
}

/// The models of events.
pub open spec fn event_models(events: Seq<OverlayEvent>) -> Seq<EventModel> {
    events.map_values(|e: OverlayEvent| e@)
}

/// A truth value as a number.
pub open spec fn flag(b: bool) -> u32 {
    if b {
        1
    } else {
        0
    }
}

/// A truth value as a number.
fn as_flag(b: bool) -> (r: u32)
    ensures
        r == flag(b),
{
    if b {
        1
    } else {
        0
    }
}

/// What the shell is told of an item of a menu.
pub open spec fn item_event(menu_id: u32, index: int, item: ContextMenuItem) -> EventModel {
    match item {
        ContextMenuItem::Separator => EventModel::ContextMenuSeparator {
            menu_id,
            index: index as u32,
        },
        ContextMenuItem::Entry { action, toggled, disabled, shortcut } => {
            EventModel::ContextMenuItem {
                menu_id,
                index: index as u32,
                action: action.number(),
                toggled: flag(toggled),
                disabled: flag(disabled),
                shortcut: match shortcut {
                    Some(s) => s@,
                    None => seq![],
                },
            }
        },
    }
}

/// What the shell is told of a menu: where it is, its items one after another, and that there are
/// no more.
pub open spec fn menu_events(menu_id: u32, x: i32, y: i32, items: Seq<ContextMenuItem>) -> Seq<
    EventModel,
> {
    seq![EventModel::ContextMenuBegin { menu_id, x, y }] + Seq::new(
        items.len(),
        |i: int| item_event(menu_id, i, items[i]),
    ) + seq![EventModel::ContextMenuDone { menu_id }]
}

/// A menu as it is sent to the shell.
#[derive(Debug, PartialEq, Eq)]
pub struct SentMenu {
    pub menu_id: u32,
    /// The shells that are told.
    pub recipients: Vec<u64>,
    /// What each of them is told.
    pub events: Vec<OverlayEvent>,
}

/// Something that is told to several shells.
#[derive(Debug, PartialEq, Eq)]
pub struct Broadcast {
    /// The shells that are told.
    pub recipients: Vec<u64>,
    /// What each of them is told.
    pub event: OverlayEvent,
}

/// The state behind the protocol.
#[derive(Debug, PartialEq, Eq)]
pub struct ShellOverlayState {
    /// The shells that are connected.
    pub instances: Vec<u64>,
    /// The number of the next menu.
    pub next_menu_id: u32,
}

impl ShellOverlayState {
    /// No shell is connected.
    pub fn new() -> (r: Self)
        ensures
            r.instances@.len() == 0,
            r.next_menu_id == 0,
    {
        ShellOverlayState { instances: Vec::new(), next_menu_id: 0 }
    }

    /// The first shell that is connected.
    pub fn overlay_instance(&self) -> (r: Option<u64>)
        ensures
            r == if self.instances@.len() > 0 {
                Some(self.instances@[0])
            } else {
                None
            },
    {
        if self.instances.len() > 0 {
            Some(self.instances[0])
        } else {
            None
        }
    }

    /// A shell connects.
    pub fn bind(&mut self, instance: u64)
        ensures
            final(self).instances@ == old(self).instances@.push(instance),
            final(self).next_menu_id == old(self).next_menu_id,
    {
        self.instances.push(instance);
    }

    /// A shell goes away.
    pub fn destroyed(&mut self, instance: u64)
        ensures
            final(self).instances@ == old(self).instances@.filter(|n: u64| n != instance),
            final(self).next_menu_id == old(self).next_menu_id,
    {
        self.instances = without(&self.instances, instance);
    }

    /// What the shells are told of a menu, which gets the next number; `None` where no shell is
    /// connected.
    pub fn send_context_menu(&mut self, x: i32, y: i32, items: &Vec<ContextMenuItem>) -> (r: Option<
        SentMenu,
    >)
        ensures
            final(self).instances == old(self).instances,
            match r {
                Some(menu) => old(self).instances@.len() > 0 && menu.menu_id
                    == old(self).next_menu_id && menu.recipients@ == old(self).instances@
                    && event_models(menu.events@) == menu_events(
                    menu.menu_id,
                    x,
                    y,
                    items@,
                ) && final(self).next_menu_id == if old(self).next_menu_id == u32::MAX {
                    0
                } else {
                    (old(self).next_menu_id + 1) as u32
                },
                None => old(self).instances@.len() == 0 && final(self).next_menu_id
                    == old(self).next_menu_id,
            },
    {
        if self.instances.len() == 0 {
            return None;
        }
        let menu_id: u32 = self.next_menu_id;
        self.next_menu_id = self.next_menu_id.wrapping_add(1);
        let mut events: Vec<OverlayEvent> = Vec::new();
        events.push(OverlayEvent::ContextMenuBegin { menu_id, x, y });
        let ghost want = menu_events(menu_id, x, y, items@);
        let mut i: usize = 0;
        while i < items.len()
            invariant
                i <= items@.len(),
                want == menu_events(menu_id, x, y, items@),
                event_models(events@) =~= want.take(i + 1),
            decreases items@.len() - i,
        {
            let ghost before = events@;
            let event: OverlayEvent = menu_item_event(menu_id, i, &items[i]);
            events.push(event);
            proof {
                assert(want[i + 1] == item_event(menu_id, i as int, items@[i as int]));
                assert(event_models(events@) =~= event_models(before).push(event@));
            }
            i += 1;
        }
        let ghost before = events@;
        events.push(OverlayEvent::ContextMenuDone { menu_id });
        proof {
            assert(event_models(events@) =~= event_models(before).push(
                EventModel::ContextMenuDone { menu_id },
            ));
            assert(event_models(events@) =~= want);
        }
        Some(SentMenu { menu_id, recipients: copied(&self.instances), events })
    }

    /// Something that every connected shell is told.
    fn broadcast(&self, event: OverlayEvent) -> (r: Broadcast)
        ensures
            r.recipients@ == self.instances@,
            r.event == event,
    {
        Broadcast { recipients: copied(&self.instances), event }
    }

    /// Every connected shell is told that a menu is closed.
    pub fn close_context_menu(&self, menu_id: u32) -> (r: Broadcast)
        ensures
            r.recipients@ == self.instances@,
            r.event@ == (EventModel::ContextMenuClosed { menu_id }),
    {
        self.broadcast(OverlayEvent::ContextMenuClosed { menu_id })
    }

    /// Every connected shell is told where to show the tab bar of a stack.
    pub fn send_tab_bar_show(&self, stack_id: u32, x: i32, y: i32, width: i32, height: i32) -> (r:
        Broadcast)
        ensures
            r.recipients@ == self.instances@,
            r.event@ == (EventModel::TabBarShow { stack_id, x, y, width, height }),
    {
        self.broadcast(OverlayEvent::TabBarShow { stack_id, x, y, width, height })
    }

    /// Every connected shell is told to hide the tab bar of a stack.
    pub fn send_tab_bar_hide(&self, stack_id: u32) -> (r: Broadcast)
        ensures
            r.recipients@ == self.instances@,
            r.event@ == (EventModel::TabBarHide { stack_id }),
    {
        self.broadcast(OverlayEvent::TabBarHide { stack_id })
    }

    /// Every connected shell is told of a new tab of a stack.
    pub fn send_tab_added(
        &self,
        stack_id: u32,
        index: u32,
        title: String,
        app_id: String,
        active: bool,
    ) -> (r: Broadcast)
        ensures
            r.recipients@ == self.instances@,
            r.event@ == (EventModel::TabAdded {
                stack_id,
                index,
                title: title@,
                app_id: app_id@,
                active: flag(active),
            }),
    {
        self.broadcast(
            OverlayEvent::TabAdded { stack_id, index, title, app_id, active: as_flag(active) },
        )
    }

    /// Every connected shell is told that a tab of a stack is gone.
    pub fn send_tab_removed(&self, stack_id: u32, index: u32) -> (r: Broadcast)
        ensures
            r.recipients@ == self.instances@,
            r.event@ == (EventModel::TabRemoved { stack_id, index }),
    {
        self.broadcast(OverlayEvent::TabRemoved { stack_id, index })
    }

    /// Every connected shell is told which tab of a stack is active.
    pub fn send_tab_activated(&self, stack_id: u32, index: u32) -> (r: Broadcast)
        ensures
            r.recipients@ == self.instances@,
            r.event@ == (EventModel::TabActivated { stack_id, index }),
    {
        self.broadcast(OverlayEvent::TabActivated { stack_id, index })
    }

    /// Every connected shell is told the new title of a tab.
    pub fn send_tab_title_changed(&self, stack_id: u32, index: u32, title: String) -> (r: Broadcast)
        ensures
            r.recipients@ == self.instances@,
            r.event@ == (EventModel::TabTitleChanged { stack_id, index, title: title@ }),
    {
        self.broadcast(OverlayEvent::TabTitleChanged { stack_id, index, title })
    }

    /// Every connected shell is told the number of the layout of a workspace.
    pub fn send_layout_mode_changed(&self, mode: u32) -> (r: Broadcast)
        ensures
            r.recipients@ == self.instances@,
            r.event@ == (EventModel::LayoutModeChanged { mode }),
    {
        self.broadcast(OverlayEvent::LayoutModeChanged { mode })
    }
}

/// What the shell is told of an item of a menu.
fn menu_item_event(menu_id: u32, index: usize, item: &ContextMenuItem) -> (r: OverlayEvent)
    ensures
        r@ == item_event(menu_id, index as int, *item),
{
    match item {
        ContextMenuItem::Separator => OverlayEvent::ContextMenuSeparator {
            menu_id,
            index: index as u32,
        },
        ContextMenuItem::Entry { action, toggled, disabled, shortcut } => {
            let keys: String = match shortcut {
                Some(s) => s.clone(),
                None => String::new(),
            };
            assert(shortcut is None ==> keys@ =~= seq![]);
            OverlayEvent::ContextMenuItem {
                menu_id,
                index: index as u32,
                action: action.code(),
                toggled: as_flag(*toggled),
                disabled: as_flag(*disabled),
                shortcut: keys,
            }
        },
    }
}

/// The numbers of the actions tell them apart, and each is one of the numbers from 1 to 18.
pub proof fn action_numbers_are_distinct(a: WindowAction, b: WindowAction)
    ensures
        1 <= a.number() <= 18,
        a.number() == b.number() ==> a == b,
{
}

/// The items of a menu are told in their order: an item is the one with its number.
pub proof fn items_are_told_in_order(
    menu_id: u32,
    x: i32,
    y: i32,
    items: Seq<ContextMenuItem>,
    i: int,
)
    requires
        0 <= i < items.len() <= u32::MAX,
    ensures
        menu_events(menu_id, x, y, items).len() == items.len() + 2,
        match menu_events(menu_id, x, y, items)[i + 1] {
            EventModel::ContextMenuSeparator { menu_id: m, index } => m == menu_id && index == i,
            EventModel::ContextMenuItem { menu_id: m, index, .. } => m == menu_id && index == i,
            _ => false,
        },
{
}

} // verus!
