//! A stack of windows under one tab bar.

use crate::geometry;
use crate::geometry::{min_i32, Point, Position, Rectangle, Size};
use crate::shell::element::surface::CosmicSurface;
use crate::shell::element::window;
use crate::shell::element::window::{
    frame_action, hits_frame, limited_size, surface_elements, AppearanceConfig, CursorIcon, Focus,
    HitTarget, PointerAction, ShadowPlan, SurfaceElement, RESIZE_BORDER,
};
use vstd::prelude::*;

verus! {

/// Height of the tab bar above the windows of a stack.
pub const TAB_HEIGHT: i32 = 24;

/// Width at either end of the tab bar from which a tab is dragged out of the stack.
pub const DRAG_MARGIN: i32 = 64;

/// The directions in which the focus moves.
#[derive(Clone, Copy, Debug, PartialEq, Eq, Structural)]
pub enum FocusDirection {
    Left,
    Right,
    Up,
    Down,
    In,
    Out,
}

/// The directions in which a window moves.
#[derive(Clone, Copy, Debug, PartialEq, Eq, Structural)]
pub enum Direction {
    Left,
    Right,
    Up,
    Down,
}

/// What became of a request to move a window of a stack.
#[derive(Clone, Copy, Debug, PartialEq, Eq, Structural)]
pub enum MoveResult {
    /// The window moved within the stack.
    Handled,
    /// The window left the stack.
    MoveOut(CosmicSurface),
    /// The stack as a whole is to be moved.
    Default,
}

/// A change of the tabs of a stack, to be told to the shell that draws them.
#[derive(Clone, Copy, Debug, PartialEq, Eq, Structural)]
pub enum TabEvent {
    Added { stack_id: u32, index: u32, window: u64, active: bool },
    Removed { stack_id: u32, index: u32 },
    Activated { stack_id: u32, index: u32 },
}

/// The last active tab at a change of the keyboard modifiers.
#[derive(Clone, Copy, Debug, PartialEq, Eq, Structural)]
pub struct PreviousIndex {
    pub serial: u32,
    pub index: usize,
}

/// A stack of windows of which one is shown.
#[derive(Debug, PartialEq, Eq)]
pub struct CosmicStack {
    /// Unique identifier of the stack.
    pub stack_id: u32,
    pub windows: Vec<CosmicSurface>,
    /// Index of the window that is shown.
    pub active: usize,
    pub activated: bool,
    /// Whether the stack as a whole has the focus, rather than one of its windows.
    pub group_focused: bool,
    pub previous_index: Option<PreviousIndex>,
    pub scroll_to_focus: bool,
    /// Index of the window that had the keyboard.
    pub previous_keyboard: usize,
    /// The part of the frame that the pointer has entered.
    pub pointer_entered: Option<Focus>,
    /// Whether the keyboard has to enter the active window anew.
    pub reenter: bool,
    /// Index of the tab that may be dragged out.
    pub potential_drag: Option<usize>,
    pub override_alive: bool,
    pub geometry: Option<Rectangle>,
    pub tiled: bool,
    pub appearance_conf: AppearanceConfig,
}

/// The contents of a stack.
#[verifier::ext_equal]
pub struct StackModel {
    pub stack_id: u32,
    pub windows: Seq<CosmicSurface>,
    pub active: int,
    pub activated: bool,
    pub group_focused: bool,
    pub previous_index: Option<PreviousIndex>,
    pub scroll_to_focus: bool,
    pub previous_keyboard: int,
    pub pointer_entered: Option<Focus>,
    pub reenter: bool,
    pub potential_drag: Option<usize>,
    pub override_alive: bool,
    pub geometry: Option<Rectangle>,
    pub tiled: bool,
    pub appearance_conf: AppearanceConfig,
}

impl View for CosmicStack {
    type V = StackModel;

    open spec fn view(&self) -> StackModel {
        StackModel {
            stack_id: self.stack_id,
            windows: self.windows@,
            active: self.active as int,
            activated: self.activated,
            group_focused: self.group_focused,
            previous_index: self.previous_index,
            scroll_to_focus: self.scroll_to_focus,
            previous_keyboard: self.previous_keyboard as int,
            pointer_entered: self.pointer_entered,
            reenter: self.reenter,
            potential_drag: self.potential_drag,
            override_alive: self.override_alive,
            geometry: self.geometry,
            tiled: self.tiled,
            appearance_conf: self.appearance_conf,
        }
    }
}

impl StackModel {
    /// A stack is never empty, and one of its windows is the active one.
    pub open spec fn wf(self) -> bool {
        0 <= self.active < self.windows.len()
    }

    /// The window that is shown.
    pub open spec fn active_window(self) -> CosmicSurface {
        self.windows[self.active]
    }

    /// The index to fall back to: the one recorded since the modifiers last changed, else the
    /// active one, recorded now.
    pub open spec fn recalled(self, serial: Option<u32>) -> Option<PreviousIndex> {
        match (self.previous_index, serial) {
            (Some(previous), Some(now)) if previous.serial == now => Some(previous),
            (_, Some(now)) => Some(PreviousIndex { serial: now, index: self.active as usize }),
            (_, None) => None,
        }
    }

    /// The stack after another tab has become active.
    pub open spec fn go_to(self, index: int) -> StackModel {
        StackModel {
            active: index,
            previous_keyboard: self.active,
            scroll_to_focus: true,
            ..self
        }
    }

    /// The stack after it has fallen back to a tab, which may be the active one.
    pub open spec fn fall_back(self, index: int) -> StackModel {
        if self.active != index {
            self.go_to(index)
        } else {
            self
        }
    }

    /// Whether moving the focus makes the stack fall back to the recalled tab.
    pub open spec fn leaves_tabs(self, direction: FocusDirection) -> bool {
        &&& !self.group_focused
        &&& match direction {
            FocusDirection::Left => self.active == 0,
            FocusDirection::Right => self.active >= self.windows.len() - 1,
            FocusDirection::Up | FocusDirection::Down => true,
            _ => false,
        }
    }

    /// The windows told that only the active one is activated, and that only if `on`.
    pub open spec fn with_activation(self, on: bool) -> StackModel {
        StackModel {
            windows: Seq::new(
                self.windows.len(),
                |i: int| self.windows[i].with_activation(on && i == self.active),
            ),
            ..self
        }
    }

    /// The stack after the focus has been moved, and whether the stack has used up the move.
    pub open spec fn focus_moved(
        self,
        direction: FocusDirection,
        swapping: bool,
        serial: Option<u32>,
    ) -> (StackModel, bool) {
        let recalled = self.recalled(serial);
        let m = StackModel { previous_index: recalled, ..self };
        if self.leaves_tabs(direction) {
            (m.fall_back(recalled->0.index as int), false)
        } else {
            match direction {
                FocusDirection::Left if !self.group_focused => (m.go_to(self.active - 1), true),
                FocusDirection::Right if !self.group_focused => (m.go_to(self.active + 1), true),
                FocusDirection::Out if !swapping && !self.group_focused => (
                    StackModel { group_focused: true, ..m }.with_activation(false),
                    true,
                ),
                FocusDirection::In if !swapping && !self.group_focused => (
                    m.with_activation(true),
                    true,
                ),
                FocusDirection::In if !swapping => (
                    StackModel { group_focused: false, ..m },
                    false,
                ),
                _ => (m, false),
            }
        }
    }

    /// The index next to the active one in the direction of a move.
    pub open spec fn neighbour(self, direction: Direction) -> Option<int> {
        match direction {
            Direction::Left if self.active > 0 => Some(self.active - 1),
            Direction::Right if self.active + 1 < self.windows.len() => Some(self.active + 1),
            _ => None,
        }
    }

    /// The stack without the window at `index`; the active index stays in range.
    pub open spec fn without(self, index: int) -> StackModel {
        StackModel {
            windows: self.windows.remove(index),
            active: geometry::smaller(self.active, self.windows.len() - 2),
            reenter: self.reenter || index == self.active,
            ..self
        }
    }

    /// The tab to go to when the active window is moved out and `remaining` are left: the
    /// recorded one where it still exists, else the last one where the active one was the last.
    pub open spec fn landing(self, remaining: int) -> Option<int> {
        if self.previous_index is Some && self.previous_index->0.index < remaining {
            Some(self.previous_index->0.index as int)
        } else if self.active == remaining {
            Some(self.active - 1)
        } else {
            None
        }
    }

    /// The stack after its active window has been moved out.
    pub open spec fn active_moved_out(self) -> StackModel {
        let landing = self.landing(self.windows.len() - 1);
        StackModel {
            windows: self.windows.remove(self.active),
            active: if landing is Some {
                landing->0
            } else {
                self.active
            },
            scroll_to_focus: self.scroll_to_focus || landing is Some,
            ..self
        }
    }

    /// The stack after its active window has been moved, and what became of the window.
    pub open spec fn moved(self, direction: Direction) -> (StackModel, MoveResult) {
        if self.group_focused {
            (self, MoveResult::Default)
        } else {
            match self.neighbour(direction) {
                Some(next) => (
                    StackModel {
                        windows: self.windows.update(self.active, self.windows[next]).update(
                            next,
                            self.windows[self.active],
                        ),
                        ..self.go_to(next)
                    },
                    MoveResult::Handled,
                ),
                None if self.windows.len() == 1 => (self, MoveResult::Default),
                None => (
                    self.active_moved_out(),
                    MoveResult::MoveOut(self.active_window().with_chrome(false, false)),
                ),
            }
        }
    }

    /// The stack whose only window has been given up.
    pub open spec fn given_up(self) -> StackModel {
        StackModel {
            windows: self.windows.update(0, self.windows[0].with_chrome(false, false)),
            override_alive: false,
            ..self
        }
    }

    /// Where a window is inserted: at the given index, or at the end.
    pub open spec fn insertion(self, idx: Option<usize>) -> int {
        match idx {
            Some(index) => index as int,
            None => self.windows.len() as int,
        }
    }

    /// Whether a window can be added there.
    pub open spec fn can_add(self, idx: Option<usize>) -> bool {
        &&& self.insertion(idx) <= self.windows.len()
        &&& self.windows.len() < usize::MAX
        &&& self.geometry matches Some(geo) ==> fits_below_tabs(geo)
    }

    /// A window dressed as a tab: undecorated, tiled and placed below the tab bar.
    pub open spec fn tab_of(self, window: CosmicSurface) -> CosmicSurface {
        let tabbed = window.with_chrome(true, true);
        match self.geometry {
            Some(geo) => tabbed.with_geometry(
                area_below_tabs(geo),
                TAB_HEIGHT as u32,
            ).configured(),
            None => tabbed.configured(),
        }
    }

    /// The stack after a window has been added and made active. Where it takes the place of the
    /// active one, the keyboard has to enter it.
    pub open spec fn with_added(
        self,
        window: CosmicSurface,
        idx: Option<usize>,
        moved_into: Option<u32>,
    ) -> StackModel {
        let index = self.insertion(idx);
        let displaces = idx is Some && index == self.active;
        StackModel {
            windows: self.windows.insert(index, self.tab_of(window)),
            active: index,
            previous_index: self.recalled(moved_into),
            scroll_to_focus: true,
            reenter: self.reenter || displaces,
            previous_keyboard: if displaces {
                self.active
            } else {
                self.previous_keyboard
            },
            ..self
        }
    }

    /// The stack without its dead windows; the active one is kept where all are dead.
    pub open spec fn refreshed(self) -> StackModel {
        let alive = self.windows.filter(|w: CosmicSurface| w.alive);
        let kept = if alive.len() == 0 {
            seq![self.active_window()]
        } else {
            alive
        };
        let active = geometry::smaller(self.active, kept.len() - 1);
        StackModel {
            windows: Seq::new(kept.len(), |i: int| kept[i].with_suspension(i != active)),
            active,
            ..self
        }
    }

    /// The first index of a window with the given identity.
    pub open spec fn position(self, id: u64) -> Option<int> {
        position_from(self.windows, id, 0)
    }
}

/// The first index from `from` on of a window with the given identity.
pub open spec fn position_from(windows: Seq<CosmicSurface>, id: u64, from: int) -> Option<int>
    decreases windows.len() - from,
{
    if from >= windows.len() {
        None
    } else if windows[from].id == id {
        Some(from)
    } else {
        position_from(windows, id, from + 1)
    }
}

impl CosmicStack {
    /// Moves the focus between the tabs, into the stack or out to the stack as a whole.
    ///
    /// `serial` is that of the last change of the keyboard modifiers, `swapping` tells that a
    /// window is about to be swapped. Returns whether the stack has used up the move.
    pub fn handle_focus(
        &mut self,
        serial: Option<u32>,
        direction: FocusDirection,
        swapping: bool,
    ) -> (handled: bool)
        requires
            old(self)@.wf(),
            old(self)@.leaves_tabs(direction) ==> serial is Some,
        ensures
            (final(self)@, handled) == old(self)@.focus_moved(direction, swapping, serial),
    {
        self.record(serial);
        match direction {
            FocusDirection::Left => {
                if self.group_focused {
                    return false;
                }
                if self.active > 0 {
                    self.activate_index(self.active - 1);
                    true
                } else {
                    self.recall();
                    false
                }
            },
            FocusDirection::Right => {
                if self.group_focused {
                    return false;
                }
                if self.active < self.windows.len() - 1 {
                    self.activate_index(self.active + 1);
                    true
                } else {
                    self.recall();
                    false
                }
            },
            FocusDirection::Up | FocusDirection::Down => {
                if !self.group_focused {
                    self.recall();
                }
                false
            },
            FocusDirection::Out => {
                if swapping || self.group_focused {
                    return false;
                }
                self.group_focused = true;
                self.tell_activation(false);
                true
            },
            FocusDirection::In => {
                if swapping {
                    return false;
                }
                if self.group_focused {
                    self.group_focused = false;
                    return false;
                }
                self.tell_activation(true);
                true
            },
        }
    }

    /// Records the active tab, unless one is recorded since the modifiers last changed.
    fn record(&mut self, serial: Option<u32>)
        ensures
            final(self)@ == (StackModel {
                previous_index: old(self)@.recalled(serial),
                ..old(self)@
            }),
    {
        let recorded: bool = match (self.previous_index, serial) {
            (Some(previous), Some(now)) => previous.serial == now,
            _ => false,
        };
        if !recorded {
            self.previous_index = match serial {
                Some(now) => Some(PreviousIndex { serial: now, index: self.active }),
                None => None,
            };
        }
    }

    /// Makes another tab active.
    fn activate_index(&mut self, index: usize)
        ensures
            final(self)@ == old(self)@.go_to(index as int),
    {
        self.previous_keyboard = self.active;
        self.active = index;
        self.scroll_to_focus = true;
    }

    /// Falls back to the recorded tab.
    fn recall(&mut self)
        requires
            old(self).previous_index is Some,
        ensures
            final(self)@ == old(self)@.fall_back(old(self).previous_index->0.index as int),
    {
        if let Some(previous) = self.previous_index {
            if self.active != previous.index {
                self.activate_index(previous.index);
            }
        }
    }

    /// Tells the windows which of them is activated.
    fn tell_activation(&mut self, on: bool)
        ensures
            final(self)@ == old(self)@.with_activation(on),
    {
        let ghost before = self@;
        let mut i: usize = 0;
        while i < self.windows.len()
            invariant
                i <= self.windows@.len(),
                before.windows.len() == self.windows@.len(),
                self@ == (StackModel { windows: self.windows@, ..before }),
                forall|j: int|
                    0 <= j < i ==> #[trigger] self.windows@[j] == before.windows[j].with_activation(
                        on && j == before.active,
                    ),
                forall|j: int|
                    i <= j < self.windows@.len() ==> #[trigger] self.windows@[j]
                        == before.windows[j],
            decreases self.windows@.len() - i,
        {
            let mut w: CosmicSurface = self.windows[i];
            w.set_activated(on && i == self.active);
            w.send_configure();
            self.windows.set(i, w);
            i += 1;
        }
    }

    /// A stack of the given windows, which are undecorated and tiled from now on, and the tabs
    /// that it starts with. The first window is active.
    pub fn new(
        windows: Vec<CosmicSurface>,
        stack_id: u32,
        appearance: AppearanceConfig,
    ) -> (r: (CosmicStack, Vec<TabEvent>))
        requires
            windows@.len() > 0,
        ensures
            r.0@ == (StackModel {
                stack_id,
                windows: windows@.map_values(
                    |w: CosmicSurface| w.with_chrome(true, true).configured(),
                ),
                active: 0,
                activated: false,
                group_focused: false,
                previous_index: None,
                scroll_to_focus: false,
                previous_keyboard: 0,
                pointer_entered: None,
                reenter: false,
                potential_drag: None,
                override_alive: true,
                geometry: None,
                tiled: false,
                appearance_conf: appearance,
            }),
            r.0@.wf(),
            r.1@ == Seq::new(
                windows@.len(),
                |i: int|
                    TabEvent::Added {
                        stack_id,
                        index: i as u32,
                        window: windows@[i].id,
                        active: i as u32 == 0,
                    },
            ),
    {
        let ghost given = windows@;
        let mut windows: Vec<CosmicSurface> = windows;
        let mut tabs: Vec<TabEvent> = Vec::new();
        let mut i: usize = 0;
        while i < windows.len()
            invariant
                i <= windows@.len(),
                windows@.len() == given.len(),
                forall|j: int|
                    0 <= j < i ==> #[trigger] windows@[j] == given[j].with_chrome(
                        true,
                        true,
                    ).configured(),
                forall|j: int| i <= j < windows@.len() ==> #[trigger] windows@[j] == given[j],
                tabs@ =~= Seq::new(
                    i as nat,
                    |j: int|
                        TabEvent::Added {
                            stack_id,
                            index: j as u32,
                            window: given[j].id,
                            active: j as u32 == 0,
                        },
                ),
            decreases windows@.len() - i,
        {
            let mut w: CosmicSurface = windows[i];
            w.try_force_undecorated(true);
            w.set_tiled(true);
            w.send_configure();
            windows.set(i, w);
            let index: u32 = i as u32;
            tabs.push(TabEvent::Added { stack_id, index, window: w.id, active: index == 0 });
            i += 1;
        }
        assert(windows@ =~= given.map_values(
            |w: CosmicSurface| w.with_chrome(true, true).configured(),
        ));
        let stack = CosmicStack {
            stack_id,
            windows,
            active: 0,
            activated: false,
            group_focused: false,
            previous_index: None,
            scroll_to_focus: false,
            previous_keyboard: 0,
            pointer_entered: None,
            reenter: false,
            potential_drag: None,
            override_alive: true,
            geometry: None,
            tiled: false,
            appearance_conf: appearance,
        };
        (stack, tabs)
    }

    /// Adds a window at `idx`, or at the end, and makes it active.
    ///
    /// `moved_into` is the serial of the last change of the keyboard modifiers where a seat has
    /// moved the window into the stack.
    pub fn add_window(
        &mut self,
        window: CosmicSurface,
        idx: Option<usize>,
        moved_into: Option<u32>,
    ) -> (tab: TabEvent)
        requires
            old(self)@.wf(),
            old(self)@.can_add(idx),
        ensures
            final(self)@ == old(self)@.with_added(window, idx, moved_into),
            final(self)@.wf(),
            tab == (TabEvent::Added {
                stack_id: old(self).stack_id,
                index: old(self)@.insertion(idx) as u32,
                window: window.id,
                active: true,
            }),
    {
        let tab: CosmicSurface = self.as_tab(window);
        self.record(moved_into);
        self.scroll_to_focus = true;
        let index: usize = match idx {
            Some(index) => {
                if self.active == index {
                    self.reenter = true;
                    self.previous_keyboard = self.active;
                }
                index
            },
            None => self.windows.len(),
        };
        self.windows.insert(index, tab);
        self.active = index;
        TabEvent::Added {
            stack_id: self.stack_id,
            index: index as u32,
            window: tab.id,
            active: true,
        }
    }

    /// A window dressed as a tab of this stack.
    fn as_tab(&self, window: CosmicSurface) -> (tab: CosmicSurface)
        requires
            self.geometry matches Some(geo) ==> fits_below_tabs(geo),
        ensures
            tab == self@.tab_of(window),
    {
        let mut tab: CosmicSurface = window;
        tab.try_force_undecorated(true);
        tab.set_tiled(true);
        if let Some(geo) = self.geometry {
            tab.set_geometry(below_tabs(geo), TAB_HEIGHT as u32);
        }
        tab.send_configure();
        tab
    }

    /// Removes the window with the given identity. The only window of a stack stays, and the
    /// stack gives up its life instead, whichever window was named.
    pub fn remove_window(&mut self, window: u64) -> (tab: Option<TabEvent>)
        requires
            old(self)@.wf(),
        ensures
            final(self)@.wf(),
            old(self)@.windows.len() == 1 ==> final(self)@ == old(self)@.given_up() && tab is None,
            old(self)@.windows.len() > 1 ==> match old(self)@.position(window) {
                Some(index) => final(self)@ == old(self)@.without(index) && tab == Some(
                    TabEvent::Removed { stack_id: old(self).stack_id, index: index as u32 },
                ),
                None => final(self)@ == old(self)@ && tab is None,
            },
    {
        if self.windows.len() == 1 {
            self.give_up();
            return None;
        }
        match self.index_of(window) {
            Some(index) => {
                let _removed: CosmicSurface = self.take_out(index);
                Some(TabEvent::Removed { stack_id: self.stack_id, index: index as u32 })
            },
            None => None,
        }
    }

    /// Removes the window at `idx` and hands it out, no longer undecorated or tiled. The only
    /// window of a stack stays and is handed out for any index.
    pub fn remove_idx(&mut self, idx: usize) -> (r: (Option<CosmicSurface>, Option<TabEvent>))
        requires
            old(self)@.wf(),
        ensures
            final(self)@.wf(),
            old(self)@.windows.len() == 1 ==> {
                &&& final(self)@ == old(self)@.given_up()
                &&& r == (Some(final(self)@.windows[0]), None::<TabEvent>)
            },
            1 < old(self)@.windows.len() <= idx ==> {
                &&& final(self)@ == old(self)@
                &&& r == (None::<CosmicSurface>, None::<TabEvent>)
            },
            old(self)@.windows.len() > 1 && idx < old(self)@.windows.len() ==> {
                &&& final(self)@ == old(self)@.without(idx as int)
                &&& r == (
                    Some(old(self)@.windows[idx as int].with_chrome(false, false)),
                    Some(
                        TabEvent::Removed { stack_id: old(self).stack_id, index: idx as u32 },
                    ),
                )
            },
    {
        if self.windows.len() == 1 {
            self.give_up();
            (Some(self.windows[0]), None)
        } else if self.windows.len() <= idx {
            (None, None)
        } else {
            let window: CosmicSurface = self.take_out(idx);
            (
                Some(window),
                Some(TabEvent::Removed { stack_id: self.stack_id, index: idx as u32 }),
            )
        }
    }

    /// Gives up the only window of the stack.
    fn give_up(&mut self)
        requires
            old(self)@.windows.len() == 1,
        ensures
            final(self)@ == old(self)@.given_up(),
    {
        self.override_alive = false;
        let mut w: CosmicSurface = self.windows[0];
        w.try_force_undecorated(false);
        w.set_tiled(false);
        self.windows.set(0, w);
    }

    /// Takes the window at `idx` out of a stack of several.
    fn take_out(&mut self, idx: usize) -> (window: CosmicSurface)
        requires
            old(self)@.windows.len() > 1,
            idx < old(self)@.windows.len(),
        ensures
            final(self)@ == old(self)@.without(idx as int),
            window == old(self)@.windows[idx as int].with_chrome(false, false),
    {
        if idx == self.active {
            self.reenter = true;
        }
        let mut window: CosmicSurface = self.windows.remove(idx);
        window.try_force_undecorated(false);
        window.set_tiled(false);
        if self.active > self.windows.len() - 1 {
            self.active = self.windows.len() - 1;
        }
        window
    }

    /// The first index of the window with the given identity.
    pub fn index_of(&self, window: u64) -> (r: Option<usize>)
        ensures
            match r {
                Some(index) => self@.position(window) == Some(index as int) && index
                    < self@.windows.len(),
                None => self@.position(window) is None,
            },
    {
        let mut i: usize = 0;
        while i < self.windows.len()
            invariant
                i <= self.windows@.len(),
                self@.position(window) == position_from(self.windows@, window, i as int),
            decreases self.windows@.len() - i,
        {
            if self.windows[i].id == window {
                return Some(i);
            }
            i += 1;
        }
        None
    }

    /// Moves the active window one tab aside, or out of the stack at its end.
    pub fn handle_move(&mut self, direction: Direction) -> (result: MoveResult)
        requires
            old(self)@.wf(),
        ensures
            (final(self)@, result) == old(self)@.moved(direction),
            final(self)@.wf(),
    {
        if self.group_focused {
            return MoveResult::Default;
        }
        let active: usize = self.active;
        let next: Option<usize> = match direction {
            Direction::Left => if active > 0 {
                Some(active - 1)
            } else {
                None
            },
            Direction::Right => if active < self.windows.len() - 1 {
                Some(active + 1)
            } else {
                None
            },
            Direction::Down | Direction::Up => None,
        };
        match next {
            Some(index) => {
                let moved: CosmicSurface = self.windows[active];
                let other: CosmicSurface = self.windows[index];
                self.windows.set(active, other);
                self.windows.set(index, moved);
                self.activate_index(index);
                MoveResult::Handled
            },
            None => {
                if self.windows.len() == 1 {
                    return MoveResult::Default;
                }
                MoveResult::MoveOut(self.move_out_active())
            },
        }
    }

    /// The tab to go to when the active window is moved out and `remaining` are left.
    fn landing_index(&self, remaining: usize) -> (r: Option<usize>)
        requires
            self.active <= remaining,
            remaining > 0,
        ensures
            r is Some == self@.landing(remaining as int) is Some,
            r is Some ==> r->0 == self@.landing(remaining as int)->0,
            r is Some ==> r->0 < remaining,
    {
        if let Some(previous) = self.previous_index {
            if previous.index < remaining {
                return Some(previous.index);
            }
        }
        if self.active == remaining {
            Some(self.active - 1)
        } else {
            None
        }
    }

    /// Moves the active window out of a stack of several.
    fn move_out_active(&mut self) -> (window: CosmicSurface)
        requires
            old(self)@.wf(),
            old(self)@.windows.len() > 1,
        ensures
            final(self)@ == old(self)@.active_moved_out(),
            final(self)@.wf(),
            window == old(self)@.active_window().with_chrome(false, false),
    {
        let landing: Option<usize> = self.landing_index(self.windows.len() - 1);
        let mut window: CosmicSurface = self.windows.remove(self.active);
        if let Some(index) = landing {
            self.active = index;
            self.scroll_to_focus = true;
        }
        window.try_force_undecorated(false);
        window.set_tiled(false);
        window
    }

    /// Makes the window with the given identity active.
    pub fn set_active(&mut self, window: u64) -> (tab: Option<TabEvent>)
        requires
            old(self)@.wf(),
        ensures
            final(self)@.wf(),
            match old(self)@.position(window) {
                Some(index) if index != old(self)@.active => {
                    &&& final(self)@ == (StackModel {
                        active: index,
                        previous_keyboard: old(self)@.active,
                        ..old(self)@
                    })
                    &&& tab == Some(
                        TabEvent::Activated { stack_id: old(self).stack_id, index: index as u32 },
                    )
                },
                _ => final(self)@ == old(self)@ && tab is None,
            },
    {
        match self.index_of(window) {
            Some(index) => {
                if self.active == index {
                    return None;
                }
                self.previous_keyboard = self.active;
                self.active = index;
                Some(TabEvent::Activated { stack_id: self.stack_id, index: index as u32 })
            },
            None => None,
        }
    }

    /// Drops the dead windows, but keeps the active one where all are dead, and suspends the
    /// windows that are not shown.
    pub fn refresh(&mut self)
        requires
            old(self)@.wf(),
        ensures
            final(self)@ == old(self)@.refreshed(),
            final(self)@.wf(),
    {
        let ghost before = self@;
        let shown: CosmicSurface = self.windows[self.active];
        let mut kept: Vec<CosmicSurface> = Vec::new();
        let mut i: usize = 0;
        proof {
            assert(before.windows.take(0) =~= seq![]);
        }
        while i < self.windows.len()
            invariant
                i <= self.windows@.len(),
                self@ == before,
                kept@ == before.windows.take(i as int).filter(|w: CosmicSurface| w.alive),
                kept@.len() <= i,
            decreases self.windows@.len() - i,
        {
            let w: CosmicSurface = self.windows[i];
            proof {
                let next = before.windows.take(i + 1);
                assert(next.drop_last() =~= before.windows.take(i as int));
                reveal(Seq::filter);
            }
            if w.alive {
                kept.push(w);
            }
            i += 1;
        }
        proof {
            assert(before.windows.take(i as int) =~= before.windows);
        }
        if kept.len() == 0 {
            kept.push(shown);
        }
        let ghost surviving = kept@;
        if self.active >= kept.len() {
            self.active = kept.len() - 1;
        }
        let mut j: usize = 0;
        while j < kept.len()
            invariant
                j <= kept@.len(),
                kept@.len() == surviving.len(),
                forall|k: int|
                    0 <= k < j ==> #[trigger] kept@[k] == surviving[k].with_suspension(
                        k != self.active,
                    ),
                forall|k: int| j <= k < kept@.len() ==> #[trigger] kept@[k] == surviving[k],
            decreases kept@.len() - j,
        {
            let mut w: CosmicSurface = kept[j];
            w.set_suspended(j != self.active);
            w.send_configure();
            kept.set(j, w);
            j += 1;
        }
        self.windows = kept;
        assert(self@.windows =~= before.refreshed().windows);
    }

    /// Tells the windows whether the stack is activated, unless it is focused as a whole.
    pub fn set_activate(&mut self, activated: bool)
        requires
            old(self)@.wf(),
        ensures
            final(self)@ == (StackModel {
                activated,
                ..(if old(self)@.group_focused {
                    old(self)@
                } else {
                    old(self)@.with_activation(activated)
                })
            }),
            final(self)@.wf(),
    {
        if !self.group_focused {
            self.tell_activation(activated);
        }
        self.activated = activated;
    }

    /// Asks all windows to take the area below the tabs.
    pub fn set_geometry(&mut self, geo: Rectangle)
        requires
            fits_below_tabs(geo),
        ensures
            final(self)@ == (StackModel {
                windows: Seq::new(
                    old(self)@.windows.len(),
                    |i: int|
                        old(self)@.windows[i].with_geometry(area_below_tabs(geo), TAB_HEIGHT as u32),
                ),
                geometry: Some(geo),
                ..old(self)@
            }),
    {
        let ghost before = self@;
        let area: Rectangle = below_tabs(geo);
        let mut i: usize = 0;
        while i < self.windows.len()
            invariant
                i <= self.windows@.len(),
                before.windows.len() == self.windows@.len(),
                area == area_below_tabs(geo),
                self@ == (StackModel { windows: self.windows@, ..before }),
                forall|j: int|
                    0 <= j < i ==> #[trigger] self.windows@[j] == before.windows[j].with_geometry(
                        area,
                        TAB_HEIGHT as u32,
                    ),
                forall|j: int|
                    i <= j < self.windows@.len() ==> #[trigger] self.windows@[j]
                        == before.windows[j],
            decreases self.windows@.len() - i,
        {
            let mut w: CosmicSurface = self.windows[i];
            w.set_geometry(area, TAB_HEIGHT as u32);
            self.windows.set(i, w);
            i += 1;
        }
        self.geometry = Some(geo);
    }
}

impl CosmicStack {
    /// Settles which window has the keyboard before an event reaches the stack: the window that
    /// had it is left and the active one entered where they differ, or the active one is entered
    /// anew. Returns the active index.
    fn keyboard_leave_if_previous(&mut self) -> (r: (usize, KeyboardSwitch))
        requires
            old(self)@.wf(),
        ensures
            r.0 == old(self).active,
            (final(self)@, r.1) == old(self)@.keyboard_settled(),
    {
        let active: usize = self.active;
        let previous: usize = self.previous_keyboard;
        self.previous_keyboard = active;
        if previous != active {
            let leave: Option<u64> = if previous < self.windows.len() {
                Some(self.windows[previous].id)
            } else {
                None
            };
            (active, KeyboardSwitch { leave, enter: Some(self.windows[active].id) })
        } else if self.reenter {
            self.reenter = false;
            (active, KeyboardSwitch { leave: None, enter: Some(self.windows[active].id) })
        } else {
            (active, KeyboardSwitch { leave: None, enter: None })
        }
    }

    /// The keyboard enters the stack: returns the window that it enters.
    pub fn keyboard_enter(&mut self) -> (window: u64)
        requires
            old(self)@.wf(),
        ensures
            final(self)@ == (StackModel { previous_keyboard: old(self)@.active, ..old(self)@ }),
            window == old(self)@.active_window().id,
    {
        self.previous_keyboard = self.active;
        self.windows[self.active].id
    }

    /// The keyboard leaves the stack: returns what is settled first, and the window that it then
    /// leaves.
    pub fn keyboard_leave(&mut self) -> (r: (KeyboardSwitch, u64))
        requires
            old(self)@.wf(),
        ensures
            final(self)@ == (StackModel {
                group_focused: false,
                ..old(self)@.keyboard_settled().0
            }),
            r == (old(self)@.keyboard_settled().1, old(self)@.active_window().id),
    {
        let (active, switch) = self.keyboard_leave_if_previous();
        self.group_focused = false;
        (switch, self.windows[active].id)
    }

    /// A key or a change of the modifiers reaches the stack: returns what is settled first, and
    /// the window that gets it, which is none while the stack is focused as a whole.
    pub fn keyboard_event(&mut self) -> (r: (KeyboardSwitch, Option<u64>))
        requires
            old(self)@.wf(),
        ensures
            final(self)@ == old(self)@.keyboard_settled().0,
            r.0 == old(self)@.keyboard_settled().1,
            r.1 == if old(self)@.group_focused {
                None
            } else {
                Some(old(self)@.active_window().id)
            },
    {
        let (active, switch) = self.keyboard_leave_if_previous();
        if self.group_focused {
            (switch, None)
        } else {
            (switch, Some(self.windows[active].id))
        }
    }

    /// Replaces the part of the frame under the pointer and returns the one before.
    pub fn swap_focus(&mut self, focus: Option<Focus>) -> (before: Option<Focus>)
        ensures
            before == old(self).pointer_entered,
            final(self)@ == (StackModel { pointer_entered: focus, ..old(self)@ }),
    {
        let before: Option<Focus> = self.pointer_entered;
        self.pointer_entered = focus;
        before
    }

    /// The part of the frame under the pointer.
    pub fn current_focus(&self) -> (r: Option<Focus>)
        ensures
            r == self.pointer_entered,
    {
        self.pointer_entered
    }

    /// The pointer enters at `location` or moves to it: the part of the frame there becomes the
    /// current one, and its pointer shape is returned. Off the frame nothing changes.
    pub fn pointer_at(&mut self, location: Point) -> (shape: Option<CursorIcon>)
        requires
            old(self)@.wf(),
        ensures
            match old(self)@.frame_at(location) {
                Some(part) => {
                    &&& final(self)@ == (StackModel { pointer_entered: Some(part), ..old(self)@ })
                    &&& shape == Some(part.shape())
                },
                None => final(self)@ == old(self)@ && shape is None,
            },
    {
        match Focus::under(&self.windows[self.active], TAB_HEIGHT, location) {
            Some(part) => {
                let _before: Option<Focus> = self.swap_focus(Some(part));
                Some(part.cursor_shape())
            },
            None => None,
        }
    }

    /// Whether a pointer or touch point at `location` has left the tabs, so that a tab that may
    /// be dragged out now is.
    pub fn leaves_tab_bar(&self, location: Position) -> (r: bool)
        requires
            self@.wf(),
        ensures
            r == outside_tab_bar(self@.active_window().geometry, location),
    {
        let geo: Rectangle = self.windows[self.active].geometry;
        let x: i64 = geo.loc.x as i64;
        let y: i64 = geo.loc.y as i64;
        let margin: i64 = DRAG_MARGIN as i64;
        (location.y_floor as i64) < y || location.y_ceil as i64 > y + TAB_HEIGHT as i64 || (
        location.x_floor as i64) < x + margin || location.x_ceil as i64 > x + geo.size.w as i64
            - margin
    }

    /// A motion over the stack: first as `pointer_at`, then, over the frame, a tab is dragged out
    /// where the pointer has left the tab bar.
    pub fn motion(&mut self, rounded: Point, location: Position) -> (r: (
        Option<CursorIcon>,
        Option<u64>,
    ))
        requires
            old(self)@.wf(),
        ensures
            match old(self)@.frame_at(rounded) {
                Some(part) => {
                    let m = StackModel { pointer_entered: Some(part), ..old(self)@ };
                    &&& r.0 == Some(part.shape())
                    &&& if outside_tab_bar(m.active_window().geometry, location) {
                        (final(self)@, r.1) == m.dragged_out()
                    } else {
                        (final(self)@, r.1) == (m, None::<u64>)
                    }
                },
                None => final(self)@ == old(self)@ && r == (None::<CursorIcon>, None::<u64>),
            },
    {
        match self.pointer_at(rounded) {
            Some(shape) => {
                if self.leaves_tab_bar(location) {
                    let dragged: Option<u64> = self.start_drag();
                    (Some(shape), dragged)
                } else {
                    (Some(shape), None)
                }
            },
            None => (None, None),
        }
    }

    /// Drags the tab out that may be: the window is asked to decorate itself again, and its
    /// surface is returned, which is to be moved.
    pub fn start_drag(&mut self) -> (surface: Option<u64>)
        ensures
            (final(self)@, surface) == old(self)@.dragged_out(),
    {
        let dragged: Option<usize> = self.potential_drag;
        self.potential_drag = None;
        match dragged {
            Some(index) => {
                if index < self.windows.len() {
                    let mut w: CosmicSurface = self.windows[index];
                    w.try_force_undecorated(false);
                    w.send_configure();
                    self.windows.set(index, w);
                    w.wl_surface
                } else {
                    None
                }
            },
            None => None,
        }
    }

    /// The pointer leaves the stack: a tab that may be dragged out now is.
    pub fn pointer_leave(&mut self) -> (surface: Option<u64>)
        ensures
            (final(self)@, surface) == (StackModel {
                pointer_entered: None,
                ..old(self)@
            }).dragged_out(),
    {
        let _before: Option<Focus> = self.swap_focus(None);
        self.start_drag()
    }

    /// A button over the stack: on the tab bar the left one moves the stack and the right one
    /// opens its menu, each when pressed; on the border any button event resizes.
    pub fn button(&self, pressed: bool, button: u32) -> (r: Option<PointerAction>)
        requires
            self@.wf(),
        ensures
            r == window::frame_button(
                self.pointer_entered,
                self@.active_window().wl_surface,
                pressed,
                button,
                true,
            ),
    {
        frame_action(
            self.pointer_entered,
            self.windows[self.active].wl_surface,
            pressed,
            button,
            true,
        )
    }

    /// What is under a position of the stack, rounded to whole pixels: the frame, where
    /// toplevels are looked for, or else the client's surfaces.
    pub fn focus_under(&self, point: Point, toplevel: bool) -> (r: HitTarget)
        requires
            self@.wf(),
        ensures
            r == if toplevel && window::on_frame(
                self@.active_window().geometry,
                TAB_HEIGHT as int,
                point,
            ) {
                HitTarget::Frame
            } else {
                HitTarget::Client { inset: TAB_HEIGHT }
            },
    {
        if toplevel && hits_frame(&self.windows[self.active].geometry, TAB_HEIGHT, point) {
            HitTarget::Frame
        } else {
            HitTarget::Client { inset: TAB_HEIGHT }
        }
    }

    /// The smallest size that all windows accept, with the tabs; none where no window has one.
    pub fn min_size(&self) -> (r: Option<Size>)
        ensures
            r == self@.min_size(),
    {
        let mut acc: Option<Size> = None;
        let mut i: usize = 0;
        while i < self.windows.len()
            invariant
                i <= self.windows@.len(),
                acc == largest_minimum(self.windows@.take(i as int)),
            decreases self.windows@.len() - i,
        {
            proof {
                assert(self.windows@.take(i + 1).drop_last() =~= self.windows@.take(i as int));
            }
            acc = match (acc, self.windows[i].min_size) {
                (Some(a), Some(b)) => Some(a.max_of(b)),
                (Some(a), None) => Some(a),
                (None, b) => b,
            };
            i += 1;
        }
        proof {
            assert(self.windows@.take(i as int) =~= self.windows@);
        }
        match acc {
            Some(size) => Some(size.grow(Size { w: 0, h: TAB_HEIGHT })),
            None => None,
        }
    }

    /// The largest size that all windows accept, with the tabs; none where no window has one.
    /// Zero stands for no limit, and the result is at least the smallest size.
    pub fn max_size(&self) -> (r: Option<Size>)
        ensures
            r == self@.max_size(),
    {
        let mut acc: Option<Size> = None;
        let mut i: usize = 0;
        while i < self.windows.len()
            invariant
                i <= self.windows@.len(),
                acc == smallest_maximum(self.windows@.take(i as int)),
            decreases self.windows@.len() - i,
        {
            proof {
                assert(self.windows@.take(i + 1).drop_last() =~= self.windows@.take(i as int));
            }
            acc = match (acc, self.windows[i].max_size) {
                (Some(a), Some(b)) => Some(
                    Size { w: tighter_limit(a.w, b.w), h: tighter_limit(a.h, b.h) },
                ),
                (Some(a), None) => Some(a),
                (None, b) => b,
            };
            i += 1;
        }
        proof {
            assert(self.windows@.take(i as int) =~= self.windows@);
        }
        let theoretical: Option<Size> = match acc {
            Some(size) => Some(size.grow(Size { w: 0, h: TAB_HEIGHT })),
            None => None,
        };
        match (theoretical, self.min_size()) {
            (Some(max), Some(min)) => Some(max.max_of(min)),
            (Some(max), None) => Some(max),
            (None, _) => None,
        }
    }

    /// Whether the stack is alive: it has not given up and one of its windows lives.
    pub fn alive(&self) -> (r: bool)
        ensures
            r == (self.override_alive && exists|i: int|
                0 <= i < self@.windows.len() && (#[trigger] self@.windows[i]).alive),
    {
        if !self.override_alive {
            return false;
        }
        let mut i: usize = 0;
        while i < self.windows.len()
            invariant
                i <= self.windows@.len(),
                self.override_alive,
                forall|j: int| 0 <= j < i ==> !(#[trigger] self.windows@[j]).alive,
            decreases self.windows@.len() - i,
        {
            if self.windows[i].alive {
                assert(self@.windows[i as int].alive);
                return true;
            }
            i += 1;
        }
        false
    }

    /// The bounding box of the stack with its resize border and its tabs.
    pub fn bbox(&self) -> (r: Rectangle)
        requires
            self@.wf(),
            geometry::saturated(self@.active_window().bbox.size.h + 2 * RESIZE_BORDER) + TAB_HEIGHT
                <= i32::MAX,
        ensures
            r == (Rectangle {
                loc: self@.active_window().bbox.loc.minus(
                    Point { x: RESIZE_BORDER, y: RESIZE_BORDER },
                ),
                size: Size {
                    w: geometry::saturated(
                        self@.active_window().bbox.size.w + 2 * RESIZE_BORDER,
                    ) as i32,
                    h: (geometry::saturated(
                        self@.active_window().bbox.size.h + 2 * RESIZE_BORDER,
                    ) + TAB_HEIGHT) as i32,
                },
            }),
    {
        let bbox: Rectangle = self.windows[self.active].bbox;
        let loc: Point = bbox.loc.relative_to(Point { x: RESIZE_BORDER, y: RESIZE_BORDER });
        let size: Size = bbox.size.grow(Size { w: RESIZE_BORDER * 2, h: RESIZE_BORDER * 2 });
        Rectangle { loc, size: Size { w: size.w, h: size.h + TAB_HEIGHT } }
    }

    /// The geometry of the active window with the tabs.
    pub fn geometry(&self) -> (r: Rectangle)
        requires
            self@.wf(),
            self@.active_window().geometry.size.h + TAB_HEIGHT <= i32::MAX,
        ensures
            r.loc == self@.active_window().geometry.loc,
            r.size.w == self@.active_window().geometry.size.w,
            r.size.h == self@.active_window().geometry.size.h + TAB_HEIGHT,
    {
        let geo: Rectangle = self.windows[self.active].geometry;
        Rectangle { loc: geo.loc, size: Size { w: geo.size.w, h: geo.size.h + TAB_HEIGHT } }
    }

    /// The radii of the stack's corners; the first and third are at the bottom, the others at
    /// the top.
    ///
    /// `radii` are those of the theme, `own` those that the active window has asked for.
    pub fn corner_radius(
        &self,
        radii: [u8; 4],
        own: Option<[u8; 4]>,
        default_radius: u8,
    ) -> (r: [u8; 4])
        requires
            self@.wf(),
        ensures
            r@ == if self@.rounded() {
                let base = match own {
                    Some(corners) => corners@,
                    None => radii@,
                };
                seq![
                    geometry::larger(radii@[0] as int, base[0] as int) as u8,
                    radii@[1],
                    geometry::larger(radii@[2] as int, base[2] as int) as u8,
                    radii@[3],
                ]
            } else {
                match own {
                    Some(corners) => seq![corners@[0], 0, corners@[2], 0],
                    None => seq![default_radius, 0, default_radius, 0],
                }
            },
    {
        if self.is_rounded() {
            let base: [u8; 4] = match own {
                Some(corners) => corners,
                None => radii,
            };
            let first: u8 = if radii[0] >= base[0] { radii[0] } else { base[0] };
            let third: u8 = if radii[2] >= base[2] { radii[2] } else { base[2] };
            [first, radii[1], third, radii[3]]
        } else {
            match own {
                Some(corners) => [corners[0], 0, corners[2], 0],
                None => [default_radius, 0, default_radius, 0],
            }
        }
    }

    /// Whether the corners of the stack are rounded.
    pub fn is_rounded(&self) -> (r: bool)
        requires
            self@.wf(),
        ensures
            r == self@.rounded(),
    {
        (self.appearance_conf.clip_tiled_windows || !self.tiled)
            && !self.windows[self.active].maximized
    }

    /// How the shadow of the stack is drawn; none where it has none.
    pub fn shadow_render_element(&self) -> (r: Option<ShadowPlan>)
        requires
            self@.wf(),
        ensures
            r == if self@.active_window().maximized || (self.tiled
                && !self.appearance_conf.shadow_tiled_windows) {
                None
            } else {
                Some(
                    ShadowPlan {
                        rounded: self.appearance_conf.clip_tiled_windows || !self.tiled,
                        dimmed: !self.activated,
                    },
                )
            },
    {
        if self.windows[self.active].maximized {
            return None;
        }
        if self.tiled && !self.appearance_conf.shadow_tiled_windows {
            return None;
        }
        Some(
            ShadowPlan {
                rounded: self.appearance_conf.clip_tiled_windows || !self.tiled,
                dimmed: !self.activated,
            },
        )
    }

    /// The radii to which the windows of the stack are clipped when drawn: none at the top,
    /// which the tabs cover. Nothing is drawn of a stack that has given up, and nothing is
    /// clipped where the corners are not rounded.
    pub fn clipping(&self, radii: [u8; 4]) -> (r: Option<Option<[u8; 4]>>)
        requires
            self@.wf(),
        ensures
            r is Some == self.override_alive,
            r matches Some(clip) ==> {
                &&& clip is Some == self@.rounded()
                &&& clip matches Some(corners) ==> corners@ == seq![radii@[0], 0u8, radii@[2], 0u8]
            },
    {
        if !self.override_alive {
            return None;
        }
        if self.is_rounded() {
            Some(Some([radii[0], 0, radii[2], 0]))
        } else {
            Some(None)
        }
    }

    /// How the surfaces of the active window are drawn, where `in_corner` tells of each whether it
    /// reaches into a corner that is cut off. Nothing is drawn of a stack that has given up.
    pub fn render_elements(&self, radii: [u8; 4], in_corner: &Vec<bool>) -> (r: Vec<SurfaceElement>)
        requires
            self@.wf(),
        ensures
            if self.override_alive {
                window::drawn_as(
                    r@,
                    if self@.rounded() {
                        Some(seq![radii@[0], 0u8, radii@[2], 0u8])
                    } else {
                        None
                    },
                    in_corner@,
                )
            } else {
                r@.len() == 0
            },
    {
        match self.clipping(radii) {
            Some(clip) => surface_elements(clip, in_corner),
            None => Vec::new(),
        }
    }

    /// The size to which the stack is clipped when drawn: with its tabs, and within the size that
    /// it is given.
    pub fn drawn_size(&self, max_size: Option<Size>) -> (r: Size)
        requires
            self@.wf(),
            max_size is None ==> self@.active_window().geometry.size.h + TAB_HEIGHT <= i32::MAX,
        ensures
            match max_size {
                Some(max) => {
                    let size = self@.active_window().geometry.size;
                    &&& r.w == window::limited(size.w as int, max.w as int)
                    &&& r.h == window::limited(size.h + TAB_HEIGHT, max.h as int)
                },
                None => {
                    &&& r.w == self@.active_window().geometry.size.w
                    &&& r.h == self@.active_window().geometry.size.h + TAB_HEIGHT
                },
            },
    {
        limited_size(self.windows[self.active].geometry.size, TAB_HEIGHT, max_size)
    }

    /// Where a menu opened at `cursor` stands relative to the stack at `position`.
    pub fn menu_position(cursor: Point, position: Point) -> (r: Point)
        requires
            cursor.y - TAB_HEIGHT >= i32::MIN,
        ensures
            r == (Point { x: cursor.x, y: (cursor.y - TAB_HEIGHT) as i32 }).minus(position),
    {
        Point { x: cursor.x, y: cursor.y - TAB_HEIGHT }.relative_to(position)
    }

    /// The window that is shown.
    pub fn active(&self) -> (r: CosmicSurface)
        requires
            self@.wf(),
        ensures
            r == self@.active_window(),
    {
        self.windows[self.active]
    }

    /// Whether the window with the given identity is shown.
    pub fn has_active(&self, window: u64) -> (r: bool)
        requires
            self@.wf(),
        ensures
            r == (self@.active_window().id == window),
    {
        self.windows[self.active].id == window
    }

    /// Whether the stack is focused as a whole.
    pub fn whole_stack_focused(&self) -> (r: bool)
        ensures
            r == self.group_focused,
    {
        self.group_focused
    }

    /// Gives the focus to the stack as a whole.
    pub fn focus_stack(&mut self)
        ensures
            final(self)@ == (StackModel { group_focused: true, ..old(self)@ }),
    {
        self.group_focused = true;
    }

    /// The identifier of the stack.
    pub fn stack_id(&self) -> (r: u32)
        ensures
            r == self.stack_id,
    {
        self.stack_id
    }

    /// The number of windows.
    pub fn len(&self) -> (r: usize)
        ensures
            r == self@.windows.len(),
    {
        self.windows.len()
    }

    /// Sets whether the stack is tiled.
    pub fn set_tiled(&mut self, tiled: bool)
        ensures
            final(self)@ == (StackModel { tiled, ..old(self)@ }),
    {
        self.tiled = tiled;
    }

    /// The windows of the stack in the order of their tabs.
    pub fn surfaces(&self) -> (r: Vec<CosmicSurface>)
        ensures
            r@ == self@.windows,
    {
        let mut out: Vec<CosmicSurface> = Vec::new();
        let mut i: usize = 0;
        while i < self.windows.len()
            invariant
                i <= self.windows@.len(),
                out@ == self.windows@.take(i as int),
            decreases self.windows@.len() - i,
        {
            out.push(self.windows[i]);
            i += 1;
        }
        assert(self.windows@.take(i as int) =~= self.windows@);
        out
    }

    /// The offset of the windows from the top of the stack.
    pub fn offset(&self) -> (r: Point)
        ensures
            r == (Point { x: 0, y: TAB_HEIGHT }),
    {
        Point { x: 0, y: TAB_HEIGHT }
    }

    /// The size last asked of the stack.
    pub fn pending_size(&self) -> (r: Option<Size>)
        ensures
            r == match self.geometry {
                Some(geo) => Some(geo.size),
                None => None,
            },
    {
        match self.geometry {
            Some(geo) => Some(geo.size),
            None => None,
        }
    }

    /// Takes over how windows are clipped and shadowed.
    pub fn update_appearance_conf(&mut self, appearance: &AppearanceConfig)
        ensures
            final(self)@ == (StackModel { appearance_conf: *appearance, ..old(self)@ }),
    {
        self.appearance_conf = *appearance;
    }
}

impl StackModel {
    /// The part of the frame at a position.
    pub open spec fn frame_at(self, location: Point) -> Option<Focus> {
        let geo = self.active_window().geometry;
        window::focus_at(geo.size, TAB_HEIGHT as int, location.minus(geo.loc))
    }

    /// The stack after it has settled which window has the keyboard, and what has to be told.
    pub open spec fn keyboard_settled(self) -> (StackModel, KeyboardSwitch) {
        let m = StackModel { previous_keyboard: self.active, ..self };
        let enter = Some(self.active_window().id);
        if self.previous_keyboard != self.active {
            let leave = if 0 <= self.previous_keyboard < self.windows.len() {
                Some(self.windows[self.previous_keyboard].id)
            } else {
                None
            };
            (m, KeyboardSwitch { leave, enter })
        } else if self.reenter {
            (StackModel { reenter: false, ..m }, KeyboardSwitch { leave: None, enter })
        } else {
            (m, KeyboardSwitch { leave: None, enter: None })
        }
    }

    /// The stack after the tab that may be dragged out has been, and the surface to move.
    pub open spec fn dragged_out(self) -> (StackModel, Option<u64>) {
        let m = StackModel { potential_drag: None, ..self };
        match self.potential_drag {
            Some(index) if index < self.windows.len() => {
                let w = self.windows[index as int];
                let undressed = CosmicSurface { force_undecorated: false, configure: true, ..w };
                (
                    StackModel { windows: self.windows.update(index as int, undressed), ..m },
                    w.wl_surface,
                )
            },
            _ => (m, None),
        }
    }

    /// Whether the corners of the stack are rounded.
    pub open spec fn rounded(self) -> bool {
        (self.appearance_conf.clip_tiled_windows || !self.tiled) && !self.active_window().maximized
    }

    /// The smallest size that all windows accept, with the tabs.
    pub open spec fn min_size(self) -> Option<Size> {
        with_tabs(largest_minimum(self.windows))
    }

    /// The largest size that all windows accept, with the tabs, but at least the smallest one.
    pub open spec fn max_size(self) -> Option<Size> {
        match (with_tabs(smallest_maximum(self.windows)), self.min_size()) {
            (Some(max), Some(min)) => Some(max.union(min)),
            (max, _) => max,
        }
    }
}

/// Windows that the keyboard leaves and enters, in this order.
#[derive(Clone, Copy, Debug, PartialEq, Eq, Structural)]
pub struct KeyboardSwitch {
    pub leave: Option<u64>,
    pub enter: Option<u64>,
}

/// A size with the height of the tabs added.
pub open spec fn with_tabs(size: Option<Size>) -> Option<Size> {
    match size {
        Some(s) => Some(s.plus(Size { w: 0, h: TAB_HEIGHT })),
        None => None,
    }
}

/// The largest of the minimal sizes, in width and in height.
pub open spec fn largest_minimum(windows: Seq<CosmicSurface>) -> Option<Size>
    decreases windows.len(),
{
    if windows.len() == 0 {
        None
    } else {
        match (largest_minimum(windows.drop_last()), windows.last().min_size) {
            (Some(a), Some(b)) => Some(a.union(b)),
            (Some(a), None) => Some(a),
            (None, b) => b,
        }
    }
}

/// The smallest of the maximal sizes, in width and in height, where zero stands for no limit.
pub open spec fn smallest_maximum(windows: Seq<CosmicSurface>) -> Option<Size>
    decreases windows.len(),
{
    if windows.len() == 0 {
        None
    } else {
        match (smallest_maximum(windows.drop_last()), windows.last().max_size) {
            (Some(a), Some(b)) => Some(Size { w: tighter(a.w, b.w), h: tighter(a.h, b.h) }),
            (Some(a), None) => Some(a),
            (None, b) => b,
        }
    }
}

/// The tighter of two limits, where zero stands for none.
pub open spec fn tighter(a: i32, b: i32) -> i32 {
    if a == 0 {
        b
    } else if b == 0 {
        a
    } else {
        geometry::smaller(a as int, b as int) as i32
    }
}

/// The tighter of two limits, where zero stands for none.
fn tighter_limit(a: i32, b: i32) -> (r: i32)
    ensures
        r == tighter(a, b),
{
    if a == 0 {
        b
    } else if b == 0 {
        a
    } else {
        min_i32(a, b)
    }
}

/// Whether a position is above or below the tab bar of a window's area, or near one of its ends.
pub open spec fn outside_tab_bar(geo: Rectangle, location: Position) -> bool {
    ||| location.y_floor - geo.loc.y < 0
    ||| location.y_ceil - geo.loc.y > TAB_HEIGHT
    ||| location.x_floor - geo.loc.x < DRAG_MARGIN
    ||| location.x_ceil - geo.loc.x > geo.size.w - DRAG_MARGIN
}

/// Whether the area below the tabs can be given in machine integers.
pub open spec fn fits_below_tabs(geo: Rectangle) -> bool {
    &&& geo.loc.y + TAB_HEIGHT <= i32::MAX
    &&& geo.size.h - TAB_HEIGHT >= i32::MIN
}

/// The part of a stack's area that is left below its tabs.
pub open spec fn area_below_tabs(geo: Rectangle) -> Rectangle {
    Rectangle {
        loc: Point { x: geo.loc.x, y: (geo.loc.y + TAB_HEIGHT) as i32 },
        size: Size { w: geo.size.w, h: (geo.size.h - TAB_HEIGHT) as i32 },
    }
}

/// The part of a stack's area that is left below its tabs.
fn below_tabs(geo: Rectangle) -> (r: Rectangle)
    requires
        fits_below_tabs(geo),
    ensures
        r == area_below_tabs(geo),
{
    Rectangle {
        loc: Point { x: geo.loc.x, y: geo.loc.y + TAB_HEIGHT },
        size: Size { w: geo.size.w, h: geo.size.h - TAB_HEIGHT },
    }
}

/// Moving the focus keeps a window active as long as the tab to fall back to still exists.
pub proof fn focus_keeps_a_window_active(
    m: StackModel,
    direction: FocusDirection,
    swapping: bool,
    serial: Option<u32>,
)
    requires
        m.wf(),
        m.leaves_tabs(direction) ==> serial is Some,
        m.leaves_tabs(direction) ==> m.recalled(serial)->0.index < m.windows.len(),
        m.windows.len() <= usize::MAX,
    ensures
        m.focus_moved(direction, swapping, serial).0.wf(),
        m.focus_moved(direction, swapping, serial).0.windows.len() == m.windows.len(),
{
}

/// A move of the focus to a neighbouring tab is undone by the move back.
pub proof fn focus_left_and_right_undo_each_other(m: StackModel, swapping: bool, serial: Option<u32>)
    requires
        m.wf(),
        m.windows.len() <= usize::MAX,
        !m.group_focused,
    ensures
        m.active > 0 ==> {
            let (left, handled) = m.focus_moved(FocusDirection::Left, swapping, serial);
            let (back, handled_back) = left.focus_moved(FocusDirection::Right, swapping, serial);
            handled && handled_back && back.active == m.active && back.windows == m.windows
        },
        m.active < m.windows.len() - 1 ==> {
            let (right, handled) = m.focus_moved(FocusDirection::Right, swapping, serial);
            let (back, handled_back) = right.focus_moved(FocusDirection::Left, swapping, serial);
            handled && handled_back && back.active == m.active && back.windows == m.windows
        },
{
}

/// Leaving the tabs at an end returns to the tab that was active when the modifiers last changed.
pub proof fn leaving_the_tabs_restores_the_recorded_tab(
    m: StackModel,
    direction: FocusDirection,
    swapping: bool,
    serial: u32,
    index: usize,
)
    requires
        m.wf(),
        m.leaves_tabs(direction),
        m.previous_index == Some(PreviousIndex { serial, index }),
    ensures
        !m.focus_moved(direction, swapping, Some(serial)).1,
        m.focus_moved(direction, swapping, Some(serial)).0.active == index,
{
}

/// Moving a window one tab aside and back restores the order of the windows and the active one.
pub proof fn opposite_moves_undo_each_other(m: StackModel)
    requires
        m.wf(),
        !m.group_focused,
    ensures
        m.active > 0 ==> {
            let back = m.moved(Direction::Left).0.moved(Direction::Right).0;
            back.windows == m.windows && back.active == m.active
        },
        m.active < m.windows.len() - 1 ==> {
            let back = m.moved(Direction::Right).0.moved(Direction::Left).0;
            back.windows == m.windows && back.active == m.active
        },
{
    if m.active > 0 {
        let back = m.moved(Direction::Left).0.moved(Direction::Right).0;
        assert(back.windows =~= m.windows);
    }
    if m.active < m.windows.len() - 1 {
        let back = m.moved(Direction::Right).0.moved(Direction::Left).0;
        assert(back.windows =~= m.windows);
    }
}

/// A window moved aside takes the active tab with it: the same window stays active.
pub proof fn a_moved_window_stays_active(m: StackModel, direction: Direction)
    requires
        m.wf(),
        !m.group_focused,
        m.neighbour(direction) is Some,
    ensures
        m.moved(direction).0.active_window() == m.active_window(),
{
}

/// Removing the window that was just added leaves the windows as they were, and hands the window
/// out with the decorations and the tiling of a window of its own.
pub proof fn removing_the_added_window_restores_the_others(
    m: StackModel,
    window: CosmicSurface,
    idx: Option<usize>,
    moved_into: Option<u32>,
)
    requires
        m.wf(),
        m.can_add(idx),
    ensures
        m.with_added(window, idx, moved_into).active_window() == m.tab_of(window),
        m.with_added(window, idx, moved_into).without(m.insertion(idx)).windows == m.windows,
        m.with_added(window, idx, moved_into).without(m.insertion(idx)).wf(),
{
    let added = m.with_added(window, idx, moved_into);
    assert(added.windows.remove(m.insertion(idx)) =~= m.windows);
}

/// A refreshed stack that is refreshed again stays as it is.
pub proof fn refreshing_twice_is_refreshing_once(m: StackModel)
    requires
        m.wf(),
    ensures
        m.refreshed().refreshed() == m.refreshed(),
{
    let pred = |w: CosmicSurface| w.alive;
    let alive = m.windows.filter(pred);
    let once = m.refreshed();
    broadcast use vstd::seq_lib::group_filter_ensures;

    if alive.len() == 0 {
        assert(!m.active_window().alive) by {
            if m.active_window().alive {
                assert(alive.contains(m.active_window()));
            }
        }
        assert(once.windows.len() == 1);
        assert(!once.windows[0].alive);
        assert(once.windows.filter(pred).len() == 0) by {
            reveal_with_fuel(Seq::filter, 2);
            assert(once.windows.drop_last() =~= seq![]);
        }
    } else {
        assert forall|i: int| 0 <= i < once.windows.len() implies pred(once.windows[i]) by {
            assert(alive.contains(alive[i]));
        }
        filter_keeps_all(once.windows, pred);
    }
    assert(once.refreshed().windows =~= once.windows);
}

/// A filter that every element passes changes nothing.
proof fn filter_keeps_all(s: Seq<CosmicSurface>, pred: spec_fn(CosmicSurface) -> bool)
    requires
        forall|i: int| 0 <= i < s.len() ==> pred(s[i]),
    ensures
        s.filter(pred) == s,
    decreases s.len(),
{
    reveal(Seq::filter);
    if s.len() > 0 {
        assert forall|i: int| 0 <= i < s.drop_last().len() implies pred(s.drop_last()[i]) by {
            assert(s.drop_last()[i] == s[i]);
        }
        filter_keeps_all(s.drop_last(), pred);
        assert(s.drop_last().push(s.last()) =~= s);
    }
}

/// Only the active window of a stack can be told that it is activated.
pub proof fn at_most_the_active_window_is_activated(m: StackModel, on: bool, i: int)
    requires
        m.wf(),
        0 <= i < m.windows.len(),
    ensures
        m.with_activation(on).windows[i].activated == (on && i == m.active),
{
}

/// The largest size of a stack is never below its smallest.
pub proof fn min_size_is_within_max_size(m: StackModel)
    ensures
        (m.min_size() is Some && m.max_size() is Some) ==> {
            &&& m.min_size()->0.w <= m.max_size()->0.w
            &&& m.min_size()->0.h <= m.max_size()->0.h
        },
{
}

/// Once the keyboard has settled, settling again has nothing to tell, unless a window still has
/// to be entered anew.
pub proof fn a_settled_keyboard_stays(m: StackModel)
    requires
        m.wf(),
        m.previous_keyboard == m.active || !m.reenter,
    ensures
        m.keyboard_settled().0.keyboard_settled() == (
            m.keyboard_settled().0,
            KeyboardSwitch { leave: None, enter: None },
        ),
{
}

} // verus!
