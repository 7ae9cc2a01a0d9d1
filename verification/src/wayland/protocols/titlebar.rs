//! The title bars that applications describe: their tabs, buttons and other contents.

use crate::text;
use crate::wayland::handlers::titlebar;
use crate::wayland::handlers::titlebar::{
    handle_activate_tab, handle_add_button, handle_add_tab, handle_remove_button,
    handle_remove_tab, handle_reorder_tabs, handle_set_button_enabled, handle_update_tab,
};
use std::collections::{HashMap, HashSet};
use vstd::prelude::*;

verus! {

/// How the window of a title bar is shown.
#[derive(Clone, Copy, Debug, PartialEq, Eq, Structural)]
pub enum TitlebarMode {
    /// As a floating window.
    Floating,
    /// As a tile.
    Tiled,
    /// On the whole screen.
    Fullscreen,
    /// Without a title bar.
    Frameless,
}

impl Default for TitlebarMode {
    /// As a floating window.
    fn default() -> (r: Self)
        ensures
            r == TitlebarMode::Floating,
    {
        TitlebarMode::Floating
    }
}

impl TitlebarMode {
    /// The number of the mode in the protocol.
    pub open spec fn number(self) -> u32 {
        match self {
            TitlebarMode::Floating => 0,
            TitlebarMode::Tiled => 1,
            TitlebarMode::Fullscreen => 2,
            TitlebarMode::Frameless => 3,
        }
    }

    /// The number of the mode in the protocol.
    pub fn code(self) -> (r: u32)
        ensures
            r == self.number(),
    {
        match self {
            TitlebarMode::Floating => 0,
            TitlebarMode::Tiled => 1,
            TitlebarMode::Fullscreen => 2,
            TitlebarMode::Frameless => 3,
        }
    }
}

/// A tab of a title bar.
#[derive(Debug, PartialEq, Eq)]
pub struct TabInfo {
    pub id: String,
    pub title: String,
    pub icon: Option<String>,
    pub status: u32,
}

/// The model of a tab.
#[verifier::ext_equal]
pub struct TabModel {
    pub id: Seq<char>,
    pub title: Seq<char>,
    pub icon: Option<Seq<char>>,
    pub status: u32,
}

impl View for TabInfo {
    type V = TabModel;

    open spec fn view(&self) -> TabModel {
        TabModel {
            id: self.id@,
            title: self.title@,
            icon: text::optional_view(self.icon),
            status: self.status,
        }
    }
}

impl Clone for TabInfo {
    fn clone(&self) -> (r: Self)
        ensures
            r@ == self@,
    {
        TabInfo {
            id: self.id.clone(),
            title: self.title.clone(),
            icon: match &self.icon {
                Some(icon) => Some(icon.clone()),
                None => None,
            },
            status: self.status,
        }
    }
}

/// A button of a title bar.
#[derive(Debug, PartialEq, Eq)]
pub struct ButtonInfo {
    pub id: String,
    pub icon: String,
    pub tooltip: String,
    pub position: u32,
    pub enabled: bool,
}

/// The model of a button.
#[verifier::ext_equal]
pub struct ButtonModel {
    pub id: Seq<char>,
    pub icon: Seq<char>,
    pub tooltip: Seq<char>,
    pub position: u32,
    pub enabled: bool,
}

impl View for ButtonInfo {
    type V = ButtonModel;

    open spec fn view(&self) -> ButtonModel {
        ButtonModel {
            id: self.id@,
            icon: self.icon@,
            tooltip: self.tooltip@,
            position: self.position,
            enabled: self.enabled,
        }
    }
}

/// The title bar of a window.
#[derive(Debug, PartialEq, Eq)]
pub struct TitlebarState {
    pub title: String,
    pub tabs: Vec<TabInfo>,
    pub active_tab: Option<String>,
    pub buttons: Vec<ButtonInfo>,
    /// The path in front of the title, as the application wrote it.
    pub breadcrumb_json: String,
    /// What is in the middle.
    pub center_content: u32,
    pub search_mode: bool,
    pub mode: TitlebarMode,
}

/// The model of a title bar.
#[verifier::ext_equal]
pub struct TitlebarModel {
    pub title: Seq<char>,
    pub tabs: Seq<TabModel>,
    pub active_tab: Option<Seq<char>>,
    pub buttons: Seq<ButtonModel>,
    pub breadcrumb_json: Seq<char>,
    pub center_content: u32,
    pub search_mode: bool,
    pub mode: TitlebarMode,
}

/// The models of tabs.
pub open spec fn tab_models(tabs: Seq<TabInfo>) -> Seq<TabModel> {
    tabs.map_values(|t: TabInfo| t@)
}

/// The models of buttons.
pub open spec fn button_models(buttons: Seq<ButtonInfo>) -> Seq<ButtonModel> {
    buttons.map_values(|b: ButtonInfo| b@)
}

impl View for TitlebarState {
    type V = TitlebarModel;

    open spec fn view(&self) -> TitlebarModel {
        TitlebarModel {
            title: self.title@,
            tabs: tab_models(self.tabs@),
            active_tab: text::optional_view(self.active_tab),
            buttons: button_models(self.buttons@),
            breadcrumb_json: self.breadcrumb_json@,
            center_content: self.center_content,
            search_mode: self.search_mode,
            mode: self.mode,
        }
    }
}

/// A title bar with nothing on it.
pub open spec fn empty_titlebar() -> TitlebarModel {
    TitlebarModel {
        title: seq![],
        tabs: seq![],
        active_tab: None,
        buttons: seq![],
        breadcrumb_json: seq![],
        center_content: 0,
        search_mode: false,
        mode: TitlebarMode::Floating,
    }
}

impl Default for TitlebarState {
    /// Nothing on it.
    fn default() -> (r: Self)
        ensures
            r@ == empty_titlebar(),
    {
        let r = TitlebarState {
            title: String::new(),
            tabs: Vec::new(),
            active_tab: None,
            buttons: Vec::new(),
            breadcrumb_json: String::new(),
            center_content: 0,
            search_mode: false,
            mode: TitlebarMode::Floating,
        };
        proof {
            assert(r@.title =~= seq![]);
            assert(r@.breadcrumb_json =~= seq![]);
            assert(r@.tabs =~= seq![]);
            assert(r@.buttons =~= seq![]);
        }
        r
    }
}

/// What an application asks of its title bar.
pub enum TitlebarRequest {
    SetTitle { title: String },
    SetBreadcrumb { segments_json: String },
    SetCenterContent { content: u32 },
    AddTab { id: String, title: String, icon: Option<String>, status: u32 },
    RemoveTab { id: String },
    UpdateTab { id: String, title: String, status: u32 },
    ActivateTab { id: String },
    ReorderTabs { ids_json: String },
    AddButton { id: String, icon_name: String, tooltip: String, position: u32 },
    RemoveButton { id: String },
    SetButtonEnabled { id: String, enabled: u32 },
    SetSearchMode { enabled: u32 },
    /// The object goes away, or the request is not known.
    Other,
}

/// A title bar after a request.
pub open spec fn requested(state: TitlebarModel, request: TitlebarRequest) -> TitlebarModel {
    match request {
        TitlebarRequest::SetTitle { title } => TitlebarModel { title: title@, ..state },
        TitlebarRequest::SetBreadcrumb { segments_json } => TitlebarModel {
            breadcrumb_json: segments_json@,
            ..state
        },
        TitlebarRequest::SetCenterContent { content } => TitlebarModel {
            center_content: content,
            ..state
        },
        TitlebarRequest::AddTab { id, title, icon, status } => titlebar::tab_added(
            state,
            TabModel { id: id@, title: title@, icon: text::optional_view(icon), status },
        ),
        TitlebarRequest::RemoveTab { id } => titlebar::tab_removed(state, id@),
        TitlebarRequest::UpdateTab { id, title, status } => titlebar::tab_updated(
            state,
            id@,
            title@,
            status,
        ),
        TitlebarRequest::ActivateTab { id } => TitlebarModel { active_tab: Some(id@), ..state },
        TitlebarRequest::ReorderTabs { ids_json } => titlebar::tabs_reordered(
            state,
            crate::json::json_strings(ids_json@),
        ),
        TitlebarRequest::AddButton { id, icon_name, tooltip, position } => titlebar::button_added(
            state,
            ButtonModel { id: id@, icon: icon_name@, tooltip: tooltip@, position, enabled: true },
        ),
        TitlebarRequest::RemoveButton { id } => titlebar::button_removed(state, id@),
        TitlebarRequest::SetButtonEnabled { id, enabled } => titlebar::button_enabled(
            state,
            id@,
            enabled != 0,
        ),
        TitlebarRequest::SetSearchMode { enabled } => TitlebarModel {
            search_mode: enabled != 0,
            ..state
        },
        TitlebarRequest::Other => state,
    }
}

/// Applies a request to a title bar; returns whether the shell is told of the title bar again.
pub fn apply_request(state: &mut TitlebarState, request: TitlebarRequest) -> (r: bool)
    ensures
        final(state)@ == requested(old(state)@, request),
        r == !(request is Other),
{
    match request {
        TitlebarRequest::SetTitle { title } => {
            state.title = title;
        },
        TitlebarRequest::SetBreadcrumb { segments_json } => {
            state.breadcrumb_json = segments_json;
        },
        TitlebarRequest::SetCenterContent { content } => {
            state.center_content = content;
        },
        TitlebarRequest::AddTab { id, title, icon, status } => {
            match icon {
                Some(icon) => handle_add_tab(
                    state,
                    id.as_str(),
                    title.as_str(),
                    Some(icon.as_str()),
                    status,
                ),
                None => handle_add_tab(state, id.as_str(), title.as_str(), None, status),
            }
        },
        TitlebarRequest::RemoveTab { id } => {
            handle_remove_tab(state, id.as_str());
        },
        TitlebarRequest::UpdateTab { id, title, status } => {
            handle_update_tab(state, id.as_str(), title.as_str(), status);
        },
        TitlebarRequest::ActivateTab { id } => {
            handle_activate_tab(state, id.as_str());
        },
        TitlebarRequest::ReorderTabs { ids_json } => {
            handle_reorder_tabs(state, ids_json.as_str());
        },
        TitlebarRequest::AddButton { id, icon_name, tooltip, position } => {
            handle_add_button(state, id.as_str(), icon_name.as_str(), tooltip.as_str(), position);
        },
        TitlebarRequest::RemoveButton { id } => {
            handle_remove_button(state, id.as_str());
        },
        TitlebarRequest::SetButtonEnabled { id, enabled } => {
            handle_set_button_enabled(state, id.as_str(), enabled != 0);
        },
        TitlebarRequest::SetSearchMode { enabled } => {
            state.search_mode = enabled != 0;
        },
        TitlebarRequest::Other => {
            return false;
        },
    }
    true
}

/// What a change of the mode of a title bar asks for.
#[derive(Clone, Copy, Debug, PartialEq, Eq, Structural)]
pub struct ModeChange {
    /// Whether the mode has changed.
    pub changed: bool,
    /// The number of the mode that the application is told, if it is.
    pub event: Option<u32>,
}

/// The title bars of all windows.
#[derive(Debug, PartialEq, Eq)]
pub struct TitlebarManagerState {
    /// The title bars by surface.
    pub surfaces: HashMap<u64, TitlebarState>,
    /// The surfaces whose applications can be told of changes.
    pub resources: HashSet<u64>,
}

impl TitlebarManagerState {
    /// The title bars by surface.
    pub open spec fn model(self) -> Map<u64, TitlebarModel> {
        self.surfaces@.map_values(|s: TitlebarState| s@)
    }

    /// The surfaces whose applications can be told of changes.
    pub open spec fn bound(self) -> Set<u64> {
        self.resources@
    }

    /// No title bars.
    pub fn new() -> (r: Self)
        ensures
            r.model() == Map::<u64, TitlebarModel>::empty(),
            r.bound() == Set::<u64>::empty(),
    {
        let r = TitlebarManagerState { surfaces: HashMap::new(), resources: HashSet::new() };
        assert(r.model() =~= Map::<u64, TitlebarModel>::empty());
        r
    }

    /// The title bar of a surface.
    pub fn get(&self, surface_id: u64) -> (r: Option<&TitlebarState>)
        ensures
            match r {
                Some(state) => self.model().contains_key(surface_id) && state@
                    == self.model()[surface_id],
                None => !self.model().contains_key(surface_id),
            },
    {
        broadcast use vstd::std_specs::hash::group_hash_axioms;

        self.surfaces.get(&surface_id)
    }

    /// Gives a surface a title bar, where it has none.
    pub fn get_or_create(&mut self, surface_id: u64)
        ensures
            final(self).bound() == old(self).bound(),
            final(self).model() == if old(self).model().contains_key(surface_id) {
                old(self).model()
            } else {
                old(self).model().insert(surface_id, empty_titlebar())
            },
    {
        broadcast use vstd::std_specs::hash::group_hash_axioms;

        if !self.surfaces.contains_key(&surface_id) {
            self.surfaces.insert(surface_id, TitlebarState::default());
            assert(self.model() =~= old(self).model().insert(surface_id, empty_titlebar()));
        }
    }

    /// Notes that the application of a surface can be told of changes.
    pub fn register_resource(&mut self, surface_id: u64)
        ensures
            final(self).bound() == old(self).bound().insert(surface_id),
            final(self).model() == old(self).model(),
    {
        broadcast use vstd::std_specs::hash::group_hash_axioms;

        self.resources.insert(surface_id);
    }

    /// Notes that the application of a surface cannot be told of changes any more.
    pub fn unregister_resource(&mut self, surface_id: u64)
        ensures
            final(self).bound() == old(self).bound().remove(surface_id),
            final(self).model() == old(self).model(),
    {
        broadcast use vstd::std_specs::hash::group_hash_axioms;

        self.resources.remove(&surface_id);
        assert(self.bound() =~= old(self).bound().remove(surface_id));
    }

    /// An application asks for the title bar of a surface.
    pub fn get_titlebar(&mut self, surface_id: u64)
        ensures
            final(self).bound() == old(self).bound().insert(surface_id),
            final(self).model() == if old(self).model().contains_key(surface_id) {
                old(self).model()
            } else {
                old(self).model().insert(surface_id, empty_titlebar())
            },
    {
        self.get_or_create(surface_id);
        self.register_resource(surface_id);
    }

    /// Applies a request to the title bar of a surface, which gets one where it has none; returns
    /// whether the shell is told.
    pub fn request(&mut self, surface_id: u64, request: TitlebarRequest) -> (r: bool)
        ensures
            r == !(request is Other),
            final(self).bound() == old(self).bound(),
            final(self).model() == old(self).model().insert(
                surface_id,
                requested(
                    if old(self).model().contains_key(surface_id) {
                        old(self).model()[surface_id]
                    } else {
                        empty_titlebar()
                    },
                    request,
                ),
            ),
    {
        broadcast use vstd::std_specs::hash::group_hash_axioms;

        let mut state: TitlebarState = match self.surfaces.remove(&surface_id) {
            Some(state) => state,
            None => TitlebarState::default(),
        };
        let changed: bool = apply_request(&mut state, request);
        self.surfaces.insert(surface_id, state);
        assert(self.model() =~= old(self).model().insert(surface_id, state@));
        changed
    }

    /// The title bar of a surface goes away.
    pub fn destroyed(&mut self, surface_id: u64)
        ensures
            final(self).bound() == old(self).bound().remove(surface_id),
            final(self).model() == old(self).model().remove(surface_id),
    {
        broadcast use vstd::std_specs::hash::group_hash_axioms;

        self.surfaces.remove(&surface_id);
        assert(self.model() =~= old(self).model().remove(surface_id));
        self.unregister_resource(surface_id);
    }

    /// Changes the mode of the title bar of a surface; the application is told where it can be.
    pub fn send_mode_changed(&mut self, surface_id: u64, mode: TitlebarMode) -> (r: ModeChange)
        ensures
            ({
                let before = old(self).model();
                let changes = before.contains_key(surface_id) && before[surface_id].mode != mode;
                &&& r.changed == changes
                &&& r.event == if changes && old(self).bound().contains(surface_id) {
                    Some(mode.number())
                } else {
                    None
                }
                &&& final(self).bound() == old(self).bound()
                &&& final(self).model() == if changes {
                    before.insert(surface_id, TitlebarModel { mode, ..before[surface_id] })
                } else {
                    before
                }
            }),
    {
        broadcast use vstd::std_specs::hash::group_hash_axioms;

        let changes: bool = match self.surfaces.get(&surface_id) {
            Some(state) => state.mode != mode,
            None => false,
        };
        if !changes {
            return ModeChange { changed: false, event: None };
        }
        if let Some(state) = self.surfaces.remove(&surface_id) {
            let mut state: TitlebarState = state;
            let ghost before = state@;
            state.mode = mode;
            self.surfaces.insert(surface_id, state);
            assert(self.model() =~= old(self).model().insert(
                surface_id,
                TitlebarModel { mode, ..before },
            ));
        }
        let event: Option<u32> = if self.resources.contains(&surface_id) {
            Some(mode.code())
        } else {
            None
        };
        ModeChange { changed: true, event }
    }

    /// Whether the application of a surface can be told of changes.
    pub fn has_titlebar(&self, surface_id: u64) -> (r: bool)
        ensures
            r == self.bound().contains(surface_id),
    {
        broadcast use vstd::std_specs::hash::group_hash_axioms;

        self.resources.contains(&surface_id)
    }

    /// The surfaces whose applications can be told of changes, in no particular order.
    pub fn active_surface_ids(&self) -> (r: Vec<u64>)
        ensures
            r@.no_duplicates(),
            r@.to_set() == self.bound(),
    {
        broadcast use vstd::std_specs::hash::group_hash_axioms;

        let mut out: Vec<u64> = Vec::new();
        let ghost all = vstd::std_specs::iter::IteratorSpec::remaining(
            &vstd::std_specs::hash::spec_hash_keys_iter(&self.resources),
        );
        for id in keys: self.resources.iter()
            invariant
                keys.seq() == all,
                out@ =~= all.take(keys.index() as int).map_values(|k: &u64| *k),
        {
            out.push(*id);
        }
        proof {
            assert(all.take(all.len() as int) =~= all);
            assert(out@ =~= all.unref());
        }
        out
    }
}

/// The numbers of the modes tell them apart.
pub proof fn mode_numbers_are_distinct(a: TitlebarMode, b: TitlebarMode)
    ensures
        a.number() == b.number() ==> a == b,
{
}

} // verus!
