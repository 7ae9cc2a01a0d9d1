//! What requests do to title bars, and what the shell is told of them.

use crate::json;
use crate::seqs;
use crate::text;
use crate::wayland::handlers::titlebar as handlers;
use crate::wayland::protocols::titlebar;
use crate::wayland::protocols::titlebar::{
    ButtonModel, TabModel, TitlebarMode, TitlebarModel, TitlebarRequest,
};
use vstd::prelude::*;

verus! {

/// Whether two title bars agree on all but their tabs.
pub open spec fn same_but_tabs(a: TitlebarModel, b: TitlebarModel) -> bool {
    a.title == b.title && a.buttons == b.buttons && a.breadcrumb_json == b.breadcrumb_json
        && a.center_content == b.center_content && a.search_mode == b.search_mode && a.mode
        == b.mode
}

/// Whether two title bars agree on all but their buttons.
pub open spec fn same_but_buttons(a: TitlebarModel, b: TitlebarModel) -> bool {
    a.title == b.title && a.tabs == b.tabs && a.active_tab == b.active_tab && a.breadcrumb_json
        == b.breadcrumb_json && a.center_content == b.center_content && a.search_mode
        == b.search_mode && a.mode == b.mode
}

/// A request that sets something sets that and nothing else.
pub proof fn requests_set_what_they_name(
    state: TitlebarModel,
    word: String,
    number: u32,
)
    ensures
        ({
            let after = titlebar::requested(state, TitlebarRequest::SetTitle { title: word });
            after.title == word@ && after.tabs == state.tabs && after.active_tab
                == state.active_tab && after.buttons == state.buttons && after.breadcrumb_json
                == state.breadcrumb_json && after.center_content == state.center_content
                && after.search_mode == state.search_mode && after.mode == state.mode
        }),
        ({
            let after = titlebar::requested(
                state,
                TitlebarRequest::SetBreadcrumb { segments_json: word },
            );
            after.breadcrumb_json == word@ && after.title == state.title && after.tabs
                == state.tabs && after.active_tab == state.active_tab && after.buttons
                == state.buttons && after.center_content == state.center_content
                && after.search_mode == state.search_mode && after.mode == state.mode
        }),
        ({
            let after = titlebar::requested(
                state,
                TitlebarRequest::SetCenterContent { content: number },
            );
            after.center_content == number && after.title == state.title && after.tabs
                == state.tabs && after.active_tab == state.active_tab && after.buttons
                == state.buttons && after.breadcrumb_json == state.breadcrumb_json
                && after.search_mode == state.search_mode && after.mode == state.mode
        }),
        ({
            let after = titlebar::requested(
                state,
                TitlebarRequest::SetSearchMode { enabled: number },
            );
            after.search_mode == (number != 0) && after.title == state.title && after.tabs
                == state.tabs && after.active_tab == state.active_tab && after.buttons
                == state.buttons && after.breadcrumb_json == state.breadcrumb_json
                && after.center_content == state.center_content && after.mode == state.mode
        }),
        ({
            let after = titlebar::requested(state, TitlebarRequest::ActivateTab { id: word });
            after.active_tab == Some(word@) && after.tabs == state.tabs && same_but_tabs(
                after,
                state,
            )
        }),
        titlebar::requested(state, TitlebarRequest::Other) == state,
{
}

/// A tab that is added is the last one, as it was asked for; the others keep their order, and one
/// with the same name goes. Which tab is active does not change.
pub proof fn an_added_tab_is_the_last(
    state: TitlebarModel,
    id: String,
    title: String,
    icon: Option<String>,
    status: u32,
)
    ensures
        ({
            let after = titlebar::requested(
                state,
                TitlebarRequest::AddTab { id, title, icon, status },
            );
            &&& after.tabs.len() > 0
            &&& after.tabs.last().id == id@
            &&& after.tabs.last().title == title@
            &&& after.tabs.last().icon == text::optional_view(icon)
            &&& after.tabs.last().status == status
            &&& after.tabs.drop_last() == state.tabs.filter(|t: TabModel| t.id != id@)
            &&& after.active_tab == state.active_tab
            &&& same_but_tabs(after, state)
        }),
{
    let after = titlebar::requested(state, TitlebarRequest::AddTab { id, title, icon, status });
    assert(after.tabs.drop_last() =~= state.tabs.filter(|t: TabModel| t.id != id@));
}

/// A tab that is removed is gone and the others keep their order. Where it was the active one,
/// the first of the others is; else the active one stays.
pub proof fn a_removed_tab_is_gone(state: TitlebarModel, id: String, k: int)
    ensures
        ({
            let after = titlebar::requested(state, TitlebarRequest::RemoveTab { id });
            &&& after.tabs == state.tabs.filter(|t: TabModel| t.id != id@)
            &&& 0 <= k < after.tabs.len() ==> after.tabs[k].id != id@ && state.tabs.contains(
                after.tabs[k],
            )
            &&& 0 <= k < state.tabs.len() && state.tabs[k].id != id@ ==> after.tabs.contains(
                state.tabs[k],
            )
            &&& state.active_tab != Some(id@) ==> after.active_tab == state.active_tab
            &&& state.active_tab == Some(id@) && after.tabs.len() > 0 ==> after.active_tab == Some(
                after.tabs[0].id,
            )
            &&& state.active_tab == Some(id@) && after.tabs.len() == 0 ==> after.active_tab is None
            &&& same_but_tabs(after, state)
        }),
{
    let p = |t: TabModel| t.id != id@;
    seqs::lemma_filter_contains(state.tabs, p);
    let kept = state.tabs.filter(p);
    if 0 <= k < kept.len() {
        assert(kept.contains(kept[k]));
    }
    if 0 <= k < state.tabs.len() && state.tabs[k].id != id@ {
        assert(state.tabs.contains(state.tabs[k]));
        assert(p(state.tabs[k]));
    }
}

/// A tab that is updated gets the title and the status, and keeps its place and its icon; the
/// other tabs stay as they are. Without such a tab nothing changes.
pub proof fn an_updated_tab_keeps_its_place(
    state: TitlebarModel,
    id: String,
    title: String,
    status: u32,
    k: int,
    j: int,
)
    requires
        0 <= j < state.tabs.len(),
    ensures
        ({
            let after = titlebar::requested(
                state,
                TitlebarRequest::UpdateTab { id, title, status },
            );
            &&& after.tabs.len() == state.tabs.len()
            &&& 0 <= k < state.tabs.len() && state.tabs[k].id == id@ && (forall|i: int|
                0 <= i < k ==> (#[trigger] state.tabs[i]).id != id@) ==> {
                &&& after.tabs[k].id == id@
                &&& after.tabs[k].title == title@
                &&& after.tabs[k].status == status
                &&& after.tabs[k].icon == state.tabs[k].icon
                &&& j != k ==> after.tabs[j] == state.tabs[j]
            }
            &&& (forall|i: int| 0 <= i < state.tabs.len() ==> (#[trigger] state.tabs[i]).id != id@)
                ==> after.tabs == state.tabs
            &&& after.active_tab == state.active_tab
            &&& same_but_tabs(after, state)
        }),
{
    lemma_tab(state.tabs, id@, k);
}

/// The first tab with a name.
proof fn lemma_tab(tabs: Seq<TabModel>, id: Seq<char>, k: int)
    ensures
        0 <= k < tabs.len() && tabs[k].id == id && (forall|i: int|
            0 <= i < k ==> (#[trigger] tabs[i]).id != id) ==> handlers::tab_position(tabs, id)
            == Some(k),
        (forall|i: int| 0 <= i < tabs.len() ==> (#[trigger] tabs[i]).id != id)
            ==> handlers::tab_position(tabs, id) is None,
        handlers::tab_position(tabs, id) matches Some(i) ==> 0 <= i < tabs.len(),
    decreases tabs.len(),
{
    if tabs.len() > 0 && tabs[0].id != id {
        let rest = tabs.skip(1);
        assert forall|i: int| 0 <= i < rest.len() implies #[trigger] rest[i] == tabs[i + 1] by {}
        lemma_tab(rest, id, k - 1);
    }
}

/// The first button with a name.
proof fn lemma_button(buttons: Seq<ButtonModel>, id: Seq<char>, k: int)
    ensures
        0 <= k < buttons.len() && buttons[k].id == id && (forall|i: int|
            0 <= i < k ==> (#[trigger] buttons[i]).id != id) ==> handlers::button_position(
            buttons,
            id,
        ) == Some(k),
        (forall|i: int| 0 <= i < buttons.len() ==> (#[trigger] buttons[i]).id != id)
            ==> handlers::button_position(buttons, id) is None,
        handlers::button_position(buttons, id) matches Some(i) ==> 0 <= i < buttons.len(),
    decreases buttons.len(),
{
    if buttons.len() > 0 && buttons[0].id != id {
        let rest = buttons.skip(1);
        assert forall|i: int| 0 <= i < rest.len() implies #[trigger] rest[i] == buttons[i
            + 1] by {}
        lemma_button(rest, id, k - 1);
    }
}

/// The tabs that are named come first, in the order of the names, and the others behind them, in
/// the order that they had.
pub proof fn named_tabs_come_first(state: TitlebarModel, ids: Seq<Seq<char>>, id: Seq<char>)
    ensures
        ({
            let after = handlers::tabs_reordered(state, Some(ids));
            let front = handlers::picked(state.tabs, ids);
            &&& after.tabs == front + state.tabs.filter(|t: TabModel| !ids.contains(t.id))
            &&& after.active_tab == state.active_tab
            &&& same_but_tabs(after, state)
        }),
        handlers::picked(state.tabs, seq![]).len() == 0,
        (forall|i: int| 0 <= i < state.tabs.len() ==> (#[trigger] state.tabs[i]).id != id)
            ==> handlers::picked(state.tabs, ids.push(id)) == handlers::picked(state.tabs, ids),
        forall|k: int|
            0 <= k < state.tabs.len() && state.tabs[k].id == id && (forall|i: int|
                0 <= i < k ==> (#[trigger] state.tabs[i]).id != id) ==> #[trigger] handlers::picked(
                state.tabs,
                ids.push(id),
            ) == handlers::picked(state.tabs, ids).push(#[trigger] state.tabs[k]),
        handlers::tabs_reordered(state, None) == state,
{
    assert(ids.push(id).drop_last() =~= ids);
    lemma_tab(state.tabs, id, 0);
    assert forall|k: int|
        0 <= k < state.tabs.len() && state.tabs[k].id == id && (forall|i: int|
            0 <= i < k ==> (#[trigger] state.tabs[i]).id != id) implies #[trigger] handlers::picked(
        state.tabs,
        ids.push(id),
    ) == handlers::picked(state.tabs, ids).push(#[trigger] state.tabs[k]) by {
        lemma_tab(state.tabs, id, k);
    }
}

/// A request for another order puts the tabs in the order of the names that it lists.
pub proof fn tabs_are_reordered_as_listed(state: TitlebarModel, list: String)
    ensures
        titlebar::requested(state, TitlebarRequest::ReorderTabs { ids_json: list })
            == handlers::tabs_reordered(state, json::json_strings(list@)),
{
}

/// A button that is added is the last one, as it was asked for, and can be pressed; the others
/// keep their order, and one with the same name goes.
pub proof fn an_added_button_is_the_last(
    state: TitlebarModel,
    id: String,
    icon_name: String,
    tooltip: String,
    position: u32,
)
    ensures
        ({
            let after = titlebar::requested(
                state,
                TitlebarRequest::AddButton { id, icon_name, tooltip, position },
            );
            &&& after.buttons.len() > 0
            &&& after.buttons.last().id == id@
            &&& after.buttons.last().icon == icon_name@
            &&& after.buttons.last().tooltip == tooltip@
            &&& after.buttons.last().position == position
            &&& after.buttons.last().enabled
            &&& after.buttons.drop_last() == state.buttons.filter(|b: ButtonModel| b.id != id@)
            &&& same_but_buttons(after, state)
        }),
{
    let after = titlebar::requested(
        state,
        TitlebarRequest::AddButton { id, icon_name, tooltip, position },
    );
    assert(after.buttons.drop_last() =~= state.buttons.filter(|b: ButtonModel| b.id != id@));
}

/// A button that is removed is gone and the others keep their order; one that is switched on or
/// off keeps all else, and so do the others.
pub proof fn buttons_are_removed_and_switched(
    state: TitlebarModel,
    id: String,
    enabled: u32,
    k: int,
    j: int,
)
    requires
        0 <= j < state.buttons.len(),
    ensures
        ({
            let after = titlebar::requested(state, TitlebarRequest::RemoveButton { id });
            &&& after.buttons == state.buttons.filter(|b: ButtonModel| b.id != id@)
            &&& same_but_buttons(after, state)
        }),
        ({
            let after = titlebar::requested(
                state,
                TitlebarRequest::SetButtonEnabled { id, enabled },
            );
            &&& after.buttons.len() == state.buttons.len()
            &&& 0 <= k < state.buttons.len() && state.buttons[k].id == id@ && (forall|i: int|
                0 <= i < k ==> (#[trigger] state.buttons[i]).id != id@) ==> {
                &&& after.buttons[k].enabled == (enabled != 0)
                &&& after.buttons[k].id == id@
                &&& after.buttons[k].icon == state.buttons[k].icon
                &&& after.buttons[k].tooltip == state.buttons[k].tooltip
                &&& after.buttons[k].position == state.buttons[k].position
                &&& j != k ==> after.buttons[j] == state.buttons[j]
            }
            &&& (forall|i: int|
                0 <= i < state.buttons.len() ==> (#[trigger] state.buttons[i]).id != id@)
                ==> after.buttons == state.buttons
            &&& same_but_buttons(after, state)
        }),
{
    lemma_button(state.buttons, id@, k);
}

/// A new title bar has nothing on it and belongs to a floating window.
pub proof fn a_new_title_bar_is_empty()
    ensures
        titlebar::empty_titlebar().title.len() == 0,
        titlebar::empty_titlebar().tabs.len() == 0,
        titlebar::empty_titlebar().active_tab is None,
        titlebar::empty_titlebar().buttons.len() == 0,
        titlebar::empty_titlebar().breadcrumb_json.len() == 0,
        titlebar::empty_titlebar().center_content == 0,
        !titlebar::empty_titlebar().search_mode,
        titlebar::empty_titlebar().mode == TitlebarMode::Floating,
{
}

/// A window on the whole screen counts as such, even where it is tiled; modes are numbered in
/// the order floating, tiled, fullscreen, frameless.
pub proof fn modes_follow_the_window(is_tiled: bool, is_fullscreen: bool)
    ensures
        ({
            let mode = handlers::mode_of(is_tiled, is_fullscreen);
            &&& is_fullscreen ==> mode == TitlebarMode::Fullscreen && mode.number() == 2
            &&& !is_fullscreen && is_tiled ==> mode == TitlebarMode::Tiled && mode.number() == 1
            &&& !is_fullscreen && !is_tiled ==> mode == TitlebarMode::Floating && mode.number()
                == 0
        }),
        TitlebarMode::Frameless.number() == 3,
{
}

/// The value of a member of an object.
pub open spec fn member(object: json::JsonModel, key: Seq<char>, value: json::JsonModel) -> bool {
    object matches json::JsonModel::Object(members) && exists|i: int|
        0 <= i < members.len() && (#[trigger] members[i]).0 == key && members[i].1 == value
}

/// What the shell is told of a title bar has a member for each of its parts.
pub proof fn the_shell_is_told_every_part(state: TitlebarModel)
    ensures
        ({
            let o = handlers::state_json(state);
            &&& member(o, "title"@, json::JsonModel::Text(state.title))
            &&& member(
                o,
                "mode"@,
                json::JsonModel::Text(
                    match state.mode {
                        TitlebarMode::Floating => "floating"@,
                        TitlebarMode::Tiled => "tiled"@,
                        TitlebarMode::Fullscreen => "fullscreen"@,
                        TitlebarMode::Frameless => "frameless"@,
                    },
                ),
            )
            &&& member(o, "breadcrumb"@, json::JsonModel::Text(state.breadcrumb_json))
            &&& member(o, "center_content"@, json::JsonModel::Number(state.center_content))
            &&& member(o, "search_mode"@, json::JsonModel::Bool(state.search_mode))
            &&& state.active_tab matches Some(id) ==> member(
                o,
                "active_tab"@,
                json::JsonModel::Text(id),
            )
            &&& state.active_tab is None ==> member(o, "active_tab"@, json::JsonModel::Null)
            &&& o is Object && o->Object_0.len() == 8
        }),
{
    let members = handlers::state_json(state)->Object_0;
    assert(members[0].0 == "mode"@);
    assert(members[1].0 == "title"@);
    assert(members[3].0 == "active_tab"@);
    assert(members[5].0 == "breadcrumb"@);
    assert(members[6].0 == "center_content"@);
    assert(members[7].0 == "search_mode"@);
}

/// What the shell is told of tabs and buttons has a member for each of their parts, and there is
/// one for each of them, in their order.
pub proof fn the_shell_is_told_of_tabs_and_buttons(state: TitlebarModel, i: int)
    ensures
        ({
            let o = handlers::state_json(state);
            let tabs = Seq::new(state.tabs.len(), |k: int| handlers::tab_json(state.tabs[k]));
            let buttons = Seq::new(
                state.buttons.len(),
                |k: int| handlers::button_json(state.buttons[k]),
            );
            &&& member(o, "tabs"@, json::JsonModel::Array(tabs))
            &&& member(o, "buttons"@, json::JsonModel::Array(buttons))
            &&& 0 <= i < state.tabs.len() ==> {
                let t = tabs[i];
                &&& member(t, "id"@, json::JsonModel::Text(state.tabs[i].id))
                &&& member(t, "title"@, json::JsonModel::Text(state.tabs[i].title))
                &&& member(t, "status"@, json::JsonModel::Number(state.tabs[i].status))
                &&& state.tabs[i].icon matches Some(icon) ==> member(
                    t,
                    "icon"@,
                    json::JsonModel::Text(icon),
                )
                &&& state.tabs[i].icon is None ==> member(t, "icon"@, json::JsonModel::Null)
            }
            &&& 0 <= i < state.buttons.len() ==> {
                let b = buttons[i];
                &&& member(b, "id"@, json::JsonModel::Text(state.buttons[i].id))
                &&& member(b, "icon"@, json::JsonModel::Text(state.buttons[i].icon))
                &&& member(b, "tooltip"@, json::JsonModel::Text(state.buttons[i].tooltip))
                &&& member(b, "position"@, json::JsonModel::Number(state.buttons[i].position))
                &&& member(b, "enabled"@, json::JsonModel::Bool(state.buttons[i].enabled))
            }
        }),
{
    let o = handlers::state_json(state);
    let members = o->Object_0;
    let tabs = Seq::new(state.tabs.len(), |k: int| handlers::tab_json(state.tabs[k]));
    let buttons = Seq::new(
        state.buttons.len(),
        |k: int| handlers::button_json(state.buttons[k]),
    );
    assert(state.tabs.map_values(|t: TabModel| handlers::tab_json(t)) =~= tabs);
    assert(state.buttons.map_values(|b: ButtonModel| handlers::button_json(b)) =~= buttons);
    assert(members[2].0 == "tabs"@ && members[2].1 == json::JsonModel::Array(tabs));
    assert(members[4].0 == "buttons"@ && members[4].1 == json::JsonModel::Array(buttons));
    if 0 <= i < state.tabs.len() {
        let t = tabs[i]->Object_0;
        assert(t[0].0 == "id"@ && t[1].0 == "title"@ && t[2].0 == "icon"@ && t[3].0 == "status"@);
    }
    if 0 <= i < state.buttons.len() {
        let b = buttons[i]->Object_0;
        assert(b[0].0 == "id"@ && b[1].0 == "icon"@ && b[2].0 == "tooltip"@);
        assert(b[3].0 == "position"@ && b[4].0 == "enabled"@);
    }
}

} // verus!
