//! What applications do with their title bars.

use crate::json;
use crate::json::{array, json_to_string, object, strings_from_json, text_or_null, Json, JsonEntry};
use crate::seqs;
use crate::text;
use crate::text::{list_contains, str_eq};
use crate::wayland::protocols::titlebar;
use crate::wayland::protocols::titlebar::{
    ButtonInfo, TabInfo, TitlebarManagerState, TitlebarMode, TitlebarState,
};
use vstd::prelude::*;
use vstd::string::StringExecFns;

verus! {

/// The tabs without the one with the given name.
pub open spec fn tabs_without(tabs: Seq<titlebar::TabModel>, id: Seq<char>) -> Seq<
    titlebar::TabModel,
> {
    tabs.filter(|t: titlebar::TabModel| t.id != id)
}

/// The buttons without the one with the given name.
pub open spec fn buttons_without(buttons: Seq<titlebar::ButtonModel>, id: Seq<char>) -> Seq<
    titlebar::ButtonModel,
> {
    buttons.filter(|b: titlebar::ButtonModel| b.id != id)
}

/// A title bar with one more tab behind the others; it takes the place of one with the same name.
pub open spec fn tab_added(
    state: titlebar::TitlebarModel,
    tab: titlebar::TabModel,
) -> titlebar::TitlebarModel {
    titlebar::TitlebarModel { tabs: tabs_without(state.tabs, tab.id).push(tab), ..state }
}

/// A title bar without a tab. Where that was the active one, the first of the others is.
pub open spec fn tab_removed(state: titlebar::TitlebarModel, id: Seq<char>) -> titlebar::TitlebarModel {
    let tabs = tabs_without(state.tabs, id);
    titlebar::TitlebarModel {
        tabs,
        active_tab: if state.active_tab == Some(id) {
            if tabs.len() > 0 {
                Some(tabs[0].id)
            } else {
                None
            }
        } else {
            state.active_tab
        },
        ..state
    }
}

/// The first tab with the given name.
pub open spec fn tab_position(tabs: Seq<titlebar::TabModel>, id: Seq<char>) -> Option<int>
    decreases tabs.len(),
{
    if tabs.len() == 0 {
        None
    } else if tabs[0].id == id {
        Some(0)
    } else {
        match tab_position(tabs.skip(1), id) {
            Some(i) => Some(i + 1),
            None => None,
        }
    }
}

/// The first button with the given name.
pub open spec fn button_position(buttons: Seq<titlebar::ButtonModel>, id: Seq<char>) -> Option<
    int,
>
    decreases buttons.len(),
{
    if buttons.len() == 0 {
        None
    } else if buttons[0].id == id {
        Some(0)
    } else {
        match button_position(buttons.skip(1), id) {
            Some(i) => Some(i + 1),
            None => None,
        }
    }
}

/// A title bar with another title and status of a tab.
pub open spec fn tab_updated(
    state: titlebar::TitlebarModel,
    id: Seq<char>,
    title: Seq<char>,
    status: u32,
) -> titlebar::TitlebarModel {
    match tab_position(state.tabs, id) {
        Some(i) => titlebar::TitlebarModel {
            tabs: state.tabs.update(i, titlebar::TabModel { title, status, ..state.tabs[i] }),
            ..state
        },
        None => state,
    }
}

/// The tabs in the order of the given names, those without a tab left out.
pub open spec fn picked(tabs: Seq<titlebar::TabModel>, ids: Seq<Seq<char>>) -> Seq<
    titlebar::TabModel,
>
    decreases ids.len(),
{
    if ids.len() == 0 {
        seq![]
    } else {
        let before = picked(tabs, ids.drop_last());
        match tab_position(tabs, ids.last()) {
            Some(i) => before.push(tabs[i]),
            None => before,
        }
    }
}

/// A title bar with its tabs in the order of the given names, and those that are not among them
/// behind; nothing changes where there are no names.
pub open spec fn tabs_reordered(
    state: titlebar::TitlebarModel,
    ids: Option<Seq<Seq<char>>>,
) -> titlebar::TitlebarModel {
    match ids {
        Some(ids) => titlebar::TitlebarModel {
            tabs: picked(state.tabs, ids) + state.tabs.filter(
                |t: titlebar::TabModel| !ids.contains(t.id),
            ),
            ..state
        },
        None => state,
    }
}

/// A title bar with one more button behind the others; it takes the place of one with the same
/// name.
pub open spec fn button_added(
    state: titlebar::TitlebarModel,
    button: titlebar::ButtonModel,
) -> titlebar::TitlebarModel {
    titlebar::TitlebarModel {
        buttons: buttons_without(state.buttons, button.id).push(button),
        ..state
    }
}

/// A title bar without a button.
pub open spec fn button_removed(
    state: titlebar::TitlebarModel,
    id: Seq<char>,
) -> titlebar::TitlebarModel {
    titlebar::TitlebarModel { buttons: buttons_without(state.buttons, id), ..state }
}

/// A title bar with a button that can or cannot be pressed.
pub open spec fn button_enabled(
    state: titlebar::TitlebarModel,
    id: Seq<char>,
    enabled: bool,
) -> titlebar::TitlebarModel {
    match button_position(state.buttons, id) {
        Some(i) => titlebar::TitlebarModel {
            buttons: state.buttons.update(
                i,
                titlebar::ButtonModel { enabled, ..state.buttons[i] },
            ),
            ..state
        },
        None => state,
    }
}

/// Removes the tabs with the given name.
fn drop_tabs(tabs: &mut Vec<TabInfo>, id: &str)
    ensures
        titlebar::tab_models(final(tabs)@) == tabs_without(titlebar::tab_models(old(tabs)@), id@),
{
    let ghost before = titlebar::tab_models(tabs@);
    let ghost keep = |t: titlebar::TabModel| t.id != id@;
    let ghost mut k: int = 0;
    let mut i: usize = 0;
    proof {
        reveal(Seq::filter);
        assert(before.take(0) =~= Seq::<titlebar::TabModel>::empty());
        assert(titlebar::tab_models(tabs@).take(0) =~= Seq::<titlebar::TabModel>::empty());
        assert(titlebar::tab_models(tabs@).skip(0) =~= before.skip(0));
    }
    while i < tabs.len()
        invariant
            keep == (|t: titlebar::TabModel| t.id != id@),
            i <= tabs@.len(),
            0 <= k <= before.len(),
            titlebar::tab_models(tabs@).take(i as int) == before.take(k).filter(keep),
            titlebar::tab_models(tabs@).skip(i as int) == before.skip(k),
        decreases tabs@.len() - i,
    {
        let ghost now = titlebar::tab_models(tabs@);
        proof {
            assert(now.skip(i as int).len() == before.skip(k).len());
            assert(k < before.len());
            assert(now.skip(i as int)[0] == tabs@[i as int]@);
            assert(before.skip(k)[0] == before[k]);
            assert(before.skip(k).skip(1) =~= before.skip(k + 1));
            seqs::lemma_filter_take(before, keep, k);
        }
        if str_eq(tabs[i].id.as_str(), id) {
            tabs.remove(i);
            proof {
                let after = titlebar::tab_models(tabs@);
                assert(after =~= now.remove(i as int));
                assert(after.take(i as int) =~= now.take(i as int));
                assert(after.skip(i as int) =~= now.skip(i as int).skip(1));
            }
        } else {
            proof {
                assert(now.take(i + 1) =~= now.take(i as int).push(now[i as int]));
                assert(now.skip(i + 1) =~= now.skip(i as int).skip(1));
            }
            i += 1;
        }
        proof {
            k = k + 1;
        }
    }
    proof {
        let after = titlebar::tab_models(tabs@);
        assert(after.skip(i as int).len() == 0);
        assert(before.skip(k).len() == 0);
        assert(before.take(k) =~= before);
        assert(after.take(i as int) =~= after);
    }
}

/// Removes the buttons with the given name.
fn drop_buttons(buttons: &mut Vec<ButtonInfo>, id: &str)
    ensures
        titlebar::button_models(final(buttons)@) == buttons_without(
            titlebar::button_models(old(buttons)@),
            id@,
        ),
{
    let ghost before = titlebar::button_models(buttons@);
    let ghost keep = |b: titlebar::ButtonModel| b.id != id@;
    let ghost mut k: int = 0;
    let mut i: usize = 0;
    proof {
        reveal(Seq::filter);
        assert(before.take(0) =~= Seq::<titlebar::ButtonModel>::empty());
        assert(titlebar::button_models(buttons@).take(0) =~= Seq::<titlebar::ButtonModel>::empty());
        assert(titlebar::button_models(buttons@).skip(0) =~= before.skip(0));
    }
    while i < buttons.len()
        invariant
            keep == (|b: titlebar::ButtonModel| b.id != id@),
            i <= buttons@.len(),
            0 <= k <= before.len(),
            titlebar::button_models(buttons@).take(i as int) == before.take(k).filter(keep),
            titlebar::button_models(buttons@).skip(i as int) == before.skip(k),
        decreases buttons@.len() - i,
    {
        let ghost now = titlebar::button_models(buttons@);
        proof {
            assert(now.skip(i as int).len() == before.skip(k).len());
            assert(k < before.len());
            assert(now.skip(i as int)[0] == buttons@[i as int]@);
            assert(before.skip(k)[0] == before[k]);
            assert(before.skip(k).skip(1) =~= before.skip(k + 1));
            seqs::lemma_filter_take(before, keep, k);
        }
        if str_eq(buttons[i].id.as_str(), id) {
            buttons.remove(i);
            proof {
                let after = titlebar::button_models(buttons@);
                assert(after =~= now.remove(i as int));
                assert(after.take(i as int) =~= now.take(i as int));
                assert(after.skip(i as int) =~= now.skip(i as int).skip(1));
            }
        } else {
            proof {
                assert(now.take(i + 1) =~= now.take(i as int).push(now[i as int]));
                assert(now.skip(i + 1) =~= now.skip(i as int).skip(1));
            }
            i += 1;
        }
        proof {
            k = k + 1;
        }
    }
    proof {
        let after = titlebar::button_models(buttons@);
        assert(after.skip(i as int).len() == 0);
        assert(before.skip(k).len() == 0);
        assert(before.take(k) =~= before);
        assert(after.take(i as int) =~= after);
    }
}

/// The first tab with the given name.
fn find_tab(tabs: &Vec<TabInfo>, id: &str) -> (r: Option<usize>)
    ensures
        match r {
            Some(i) => tab_position(titlebar::tab_models(tabs@), id@) == Some(i as int) && i
                < tabs@.len(),
            None => tab_position(titlebar::tab_models(tabs@), id@) is None,
        },
{
    let ghost models = titlebar::tab_models(tabs@);
    let mut i: usize = 0;
    assert(models.skip(0) =~= models);
    while i < tabs.len()
        invariant
            i <= tabs@.len(),
            models == titlebar::tab_models(tabs@),
            match tab_position(models.skip(i as int), id@) {
                Some(j) => tab_position(models, id@) == Some(i + j),
                None => tab_position(models, id@) is None,
            },
        decreases tabs@.len() - i,
    {
        proof {
            assert(models.skip(i as int)[0] == tabs@[i as int]@);
            assert(models.skip(i as int).skip(1) =~= models.skip(i + 1));
        }
        if str_eq(tabs[i].id.as_str(), id) {
            return Some(i);
        }
        i += 1;
    }
    None
}

/// The first button with the given name.
fn find_button(buttons: &Vec<ButtonInfo>, id: &str) -> (r: Option<usize>)
    ensures
        match r {
            Some(i) => button_position(titlebar::button_models(buttons@), id@) == Some(i as int)
                && i < buttons@.len(),
            None => button_position(titlebar::button_models(buttons@), id@) is None,
        },
{
    let ghost models = titlebar::button_models(buttons@);
    let mut i: usize = 0;
    assert(models.skip(0) =~= models);
    while i < buttons.len()
        invariant
            i <= buttons@.len(),
            models == titlebar::button_models(buttons@),
            match button_position(models.skip(i as int), id@) {
                Some(j) => button_position(models, id@) == Some(i + j),
                None => button_position(models, id@) is None,
            },
        decreases buttons@.len() - i,
    {
        proof {
            assert(models.skip(i as int)[0] == buttons@[i as int]@);
            assert(models.skip(i as int).skip(1) =~= models.skip(i + 1));
        }
        if str_eq(buttons[i].id.as_str(), id) {
            return Some(i);
        }
        i += 1;
    }
    None
}

/// Adds a tab behind the others, in place of one with the same name.
pub fn handle_add_tab(
    state: &mut TitlebarState,
    id: &str,
    title: &str,
    icon: Option<&str>,
    status: u32,
)
    ensures
        final(state)@ == tab_added(
            old(state)@,
            titlebar::TabModel {
                id: id@,
                title: title@,
                icon: match icon {
                    Some(icon) => Some(icon@),
                    None => None,
                },
                status,
            },
        ),
{
    drop_tabs(&mut state.tabs, id);
    let ghost rest = state.tabs@;
    let tab = TabInfo {
        id: String::from_str(id),
        title: String::from_str(title),
        icon: match icon {
            Some(icon) => Some(String::from_str(icon)),
            None => None,
        },
        status,
    };
    state.tabs.push(tab);
    assert(titlebar::tab_models(state.tabs@) =~= titlebar::tab_models(rest).push(tab@));
}

/// Removes a tab.
pub fn handle_remove_tab(state: &mut TitlebarState, id: &str)
    ensures
        final(state)@ == tab_removed(old(state)@, id@),
{
    drop_tabs(&mut state.tabs, id);
    let active: bool = match &state.active_tab {
        Some(tab) => str_eq(tab.as_str(), id),
        None => false,
    };
    if active {
        state.active_tab = if state.tabs.len() > 0 {
            assert(titlebar::tab_models(state.tabs@)[0] == state.tabs@[0]@);
            Some(state.tabs[0].id.clone())
        } else {
            None
        };
    }
}

/// Changes the title and the status of a tab.
pub fn handle_update_tab(state: &mut TitlebarState, id: &str, title: &str, status: u32)
    ensures
        final(state)@ == tab_updated(old(state)@, id@, title@, status),
{
    match find_tab(&state.tabs, id) {
        Some(i) => {
            let ghost before = state.tabs@;
            let old_tab: TabInfo = state.tabs[i].clone();
            let tab = TabInfo {
                id: old_tab.id,
                title: String::from_str(title),
                icon: old_tab.icon,
                status,
            };
            state.tabs.set(i, tab);
            proof {
                assert(titlebar::tab_models(before)[i as int] == before[i as int]@);
                assert(titlebar::tab_models(state.tabs@) =~= titlebar::tab_models(before).update(
                    i as int,
                    tab@,
                ));
            }
        },
        None => {},
    }
}

/// Makes a tab the active one.
pub fn handle_activate_tab(state: &mut TitlebarState, id: &str)
    ensures
        final(state)@ == (titlebar::TitlebarModel { active_tab: Some(id@), ..old(state)@ }),
{
    state.active_tab = Some(String::from_str(id));
}

/// Puts the tabs in the order of the given names, and those that are not among them behind.
pub fn reorder_tabs(state: &mut TitlebarState, ids: &Vec<String>)
    ensures
        final(state)@ == tabs_reordered(old(state)@, Some(text::list_view(ids@))),
{
    let ghost tabs = titlebar::tab_models(state.tabs@);
    let ghost names = text::list_view(ids@);
    let mut reordered: Vec<TabInfo> = Vec::new();
    let mut i: usize = 0;
    proof {
        assert(names.take(0) =~= Seq::<Seq<char>>::empty());
        assert(titlebar::tab_models(reordered@) =~= picked(tabs, names.take(0)));
    }
    while i < ids.len()
        invariant
            i <= ids@.len(),
            *state == *old(state),
            tabs == titlebar::tab_models(state.tabs@),
            names == text::list_view(ids@),
            titlebar::tab_models(reordered@) == picked(tabs, names.take(i as int)),
        decreases ids@.len() - i,
    {
        let ghost so_far = reordered@;
        proof {
            assert(names.take(i + 1).drop_last() =~= names.take(i as int));
            assert(names.take(i + 1).last() == ids@[i as int]@);
        }
        if let Some(k) = find_tab(&state.tabs, ids[i].as_str()) {
            let tab: TabInfo = state.tabs[k].clone();
            reordered.push(tab);
            proof {
                assert(tabs[k as int] == state.tabs@[k as int]@);
                assert(titlebar::tab_models(reordered@) =~= titlebar::tab_models(so_far).push(
                    tab@,
                ));
            }
        }
        i += 1;
    }
    let ghost keep = |t: titlebar::TabModel| !names.contains(t.id);
    let ghost first = titlebar::tab_models(reordered@);
    let mut k: usize = 0;
    proof {
        assert(names.take(i as int) =~= names);
        reveal(Seq::filter);
        assert(tabs.take(0) =~= Seq::<titlebar::TabModel>::empty());
        assert(first =~= first + tabs.take(0).filter(keep));
    }
    while k < state.tabs.len()
        invariant
            k <= state.tabs@.len(),
            *state == *old(state),
            tabs == titlebar::tab_models(state.tabs@),
            names == text::list_view(ids@),
            keep == (|t: titlebar::TabModel| !names.contains(t.id)),
            titlebar::tab_models(reordered@) == first + tabs.take(k as int).filter(keep),
        decreases state.tabs@.len() - k,
    {
        let ghost so_far = reordered@;
        proof {
            assert(tabs[k as int] == state.tabs@[k as int]@);
            seqs::lemma_filter_take(tabs, keep, k as int);
        }
        if !list_contains(ids, state.tabs[k].id.as_str()) {
            let tab: TabInfo = state.tabs[k].clone();
            reordered.push(tab);
            proof {
                assert(titlebar::tab_models(reordered@) =~= titlebar::tab_models(so_far).push(
                    tab@,
                ));
                assert((first + tabs.take(k as int).filter(keep)).push(tab@) =~= first + tabs.take(
                    k as int,
                ).filter(keep).push(tab@));
            }
        }
        k += 1;
    }
    assert(tabs.take(k as int) =~= tabs);
    state.tabs = reordered;
}

/// Puts the tabs in the order of the names in a JSON array; JSON of any other kind changes
/// nothing.
pub fn handle_reorder_tabs(state: &mut TitlebarState, ids_json: &str)
    ensures
        final(state)@ == tabs_reordered(old(state)@, json::json_strings(ids_json@)),
{
    if let Some(ids) = strings_from_json(ids_json) {
        reorder_tabs(state, &ids);
    }
}

/// Adds a button behind the others, in place of one with the same name. It can be pressed.
pub fn handle_add_button(
    state: &mut TitlebarState,
    id: &str,
    icon: &str,
    tooltip: &str,
    position: u32,
)
    ensures
        final(state)@ == button_added(
            old(state)@,
            titlebar::ButtonModel {
                id: id@,
                icon: icon@,
                tooltip: tooltip@,
                position,
                enabled: true,
            },
        ),
{
    drop_buttons(&mut state.buttons, id);
    let ghost rest = state.buttons@;
    let button = ButtonInfo {
        id: String::from_str(id),
        icon: String::from_str(icon),
        tooltip: String::from_str(tooltip),
        position,
        enabled: true,
    };
    state.buttons.push(button);
    assert(titlebar::button_models(state.buttons@) =~= titlebar::button_models(rest).push(button@));
}

/// Removes a button.
pub fn handle_remove_button(state: &mut TitlebarState, id: &str)
    ensures
        final(state)@ == button_removed(old(state)@, id@),
{
    drop_buttons(&mut state.buttons, id);
}

/// Makes it possible or impossible to press a button.
pub fn handle_set_button_enabled(state: &mut TitlebarState, id: &str, enabled: bool)
    ensures
        final(state)@ == button_enabled(old(state)@, id@, enabled),
{
    match find_button(&state.buttons, id) {
        Some(i) => {
            let ghost before = state.buttons@;
            let button = ButtonInfo {
                id: state.buttons[i].id.clone(),
                icon: state.buttons[i].icon.clone(),
                tooltip: state.buttons[i].tooltip.clone(),
                position: state.buttons[i].position,
                enabled,
            };
            state.buttons.set(i, button);
            proof {
                assert(titlebar::button_models(before)[i as int] == before[i as int]@);
                assert(titlebar::button_models(state.buttons@) =~= titlebar::button_models(
                    before,
                ).update(i as int, button@));
            }
        },
        None => {},
    }
}

/// The name of a mode.
pub open spec fn mode_name(mode: TitlebarMode) -> Seq<char> {
    match mode {
        TitlebarMode::Floating => "floating"@,
        TitlebarMode::Tiled => "tiled"@,
        TitlebarMode::Fullscreen => "fullscreen"@,
        TitlebarMode::Frameless => "frameless"@,
    }
}

/// The name of a mode.
fn mode_str(mode: TitlebarMode) -> (r: String)
    ensures
        r@ == mode_name(mode),
{
    match mode {
        TitlebarMode::Floating => String::from_str("floating"),
        TitlebarMode::Tiled => String::from_str("tiled"),
        TitlebarMode::Fullscreen => String::from_str("fullscreen"),
        TitlebarMode::Frameless => String::from_str("frameless"),
    }
}

/// A tab as JSON.
pub open spec fn tab_json(tab: titlebar::TabModel) -> json::JsonModel {
    json::JsonModel::Object(
        seq![
            ("id"@, json::JsonModel::Text(tab.id)),
            ("title"@, json::JsonModel::Text(tab.title)),
            ("icon"@, json::optional_text(tab.icon)),
            ("status"@, json::JsonModel::Number(tab.status)),
        ],
    )
}

/// A button as JSON.
pub open spec fn button_json(button: titlebar::ButtonModel) -> json::JsonModel {
    json::JsonModel::Object(
        seq![
            ("id"@, json::JsonModel::Text(button.id)),
            ("icon"@, json::JsonModel::Text(button.icon)),
            ("tooltip"@, json::JsonModel::Text(button.tooltip)),
            ("position"@, json::JsonModel::Number(button.position)),
            ("enabled"@, json::JsonModel::Bool(button.enabled)),
        ],
    )
}

/// A title bar as JSON.
pub open spec fn state_json(state: titlebar::TitlebarModel) -> json::JsonModel {
    json::JsonModel::Object(
        seq![
            ("mode"@, json::JsonModel::Text(mode_name(state.mode))),
            ("title"@, json::JsonModel::Text(state.title)),
            (
                "tabs"@,
                json::JsonModel::Array(
                    state.tabs.map_values(|t: titlebar::TabModel| tab_json(t)),
                ),
            ),
            ("active_tab"@, json::optional_text(state.active_tab)),
            (
                "buttons"@,
                json::JsonModel::Array(
                    state.buttons.map_values(|b: titlebar::ButtonModel| button_json(b)),
                ),
            ),
            ("breadcrumb"@, json::JsonModel::Text(state.breadcrumb_json)),
            ("center_content"@, json::JsonModel::Number(state.center_content)),
            ("search_mode"@, json::JsonModel::Bool(state.search_mode)),
        ],
    )
}

/// A member of an object.
fn member(key: &str, value: Json) -> (r: JsonEntry)
    ensures
        r.key@ == key@,
        r.value == value,
{
    JsonEntry { key: String::from_str(key), value }
}

/// A tab as JSON.
fn tab_value(tab: &TabInfo) -> (r: Json)
    ensures
        r.model() == tab_json(tab@),
{
    let mut entries: Vec<JsonEntry> = Vec::new();
    entries.push(member("id", Json::Text(tab.id.clone())));
    entries.push(member("title", Json::Text(tab.title.clone())));
    entries.push(member("icon", text_or_null(&tab.icon)));
    entries.push(member("status", Json::Number(tab.status)));
    assert(json::members(entries@) =~= tab_json(tab@)->Object_0);
    object(entries)
}

/// A button as JSON.
fn button_value(button: &ButtonInfo) -> (r: Json)
    ensures
        r.model() == button_json(button@),
{
    let mut entries: Vec<JsonEntry> = Vec::new();
    entries.push(member("id", Json::Text(button.id.clone())));
    entries.push(member("icon", Json::Text(button.icon.clone())));
    entries.push(member("tooltip", Json::Text(button.tooltip.clone())));
    entries.push(member("position", Json::Number(button.position)));
    entries.push(member("enabled", Json::Bool(button.enabled)));
    assert(json::members(entries@) =~= button_json(button@)->Object_0);
    object(entries)
}

/// The tabs as JSON.
fn tab_values(tabs: &Vec<TabInfo>) -> (r: Json)
    ensures
        r.model() == json::JsonModel::Array(
            titlebar::tab_models(tabs@).map_values(|t: titlebar::TabModel| tab_json(t)),
        ),
{
    let mut out: Vec<Json> = Vec::new();
    let mut i: usize = 0;
    while i < tabs.len()
        invariant
            i <= tabs@.len(),
            out@.len() == i,
            forall|j: int| 0 <= j < i ==> (#[trigger] out@[j]).model() == tab_json(tabs@[j]@),
        decreases tabs@.len() - i,
    {
        out.push(tab_value(&tabs[i]));
        i += 1;
    }
    assert(json::items(out@) =~= titlebar::tab_models(tabs@).map_values(
        |t: titlebar::TabModel| tab_json(t),
    ));
    array(out)
}

/// The buttons as JSON.
fn button_values(buttons: &Vec<ButtonInfo>) -> (r: Json)
    ensures
        r.model() == json::JsonModel::Array(
            titlebar::button_models(buttons@).map_values(
                |b: titlebar::ButtonModel| button_json(b),
            ),
        ),
{
    let mut out: Vec<Json> = Vec::new();
    let mut i: usize = 0;
    while i < buttons.len()
        invariant
            i <= buttons@.len(),
            out@.len() == i,
            forall|j: int|
                0 <= j < i ==> (#[trigger] out@[j]).model() == button_json(buttons@[j]@),
        decreases buttons@.len() - i,
    {
        out.push(button_value(&buttons[i]));
        i += 1;
    }
    assert(json::items(out@) =~= titlebar::button_models(buttons@).map_values(
        |b: titlebar::ButtonModel| button_json(b),
    ));
    array(out)
}

/// A title bar as a value to print.
pub fn state_value(state: &TitlebarState) -> (r: Json)
    ensures
        r.model() == state_json(state@),
{
    let mut entries: Vec<JsonEntry> = Vec::new();
    entries.push(member("mode", Json::Text(mode_str(state.mode))));
    entries.push(member("title", Json::Text(state.title.clone())));
    entries.push(member("tabs", tab_values(&state.tabs)));
    entries.push(member("active_tab", text_or_null(&state.active_tab)));
    entries.push(member("buttons", button_values(&state.buttons)));
    entries.push(member("breadcrumb", Json::Text(state.breadcrumb_json.clone())));
    entries.push(member("center_content", Json::Number(state.center_content)));
    entries.push(member("search_mode", Json::Bool(state.search_mode)));
    assert(json::members(entries@) =~= state_json(state@)->Object_0);
    object(entries)
}

/// A title bar as JSON.
pub fn state_to_json(state: &TitlebarState) -> (r: String)
    ensures
        r@ == json::json_text(state_json(state@)),
{
    json_to_string(&state_value(state))
}

/// The contents of a title bar for the shell.
#[derive(Debug, PartialEq, Eq)]
pub struct HeaderContent {
    /// The surface of the window.
    pub surface_id: u32,
    pub json: String,
}

/// What the shell is told after the title bar of a surface has changed; nothing where there is no
/// title bar.
pub fn notify_titlebar_changed(manager: &TitlebarManagerState, surface_id: u64) -> (r: Option<
    HeaderContent,
>)
    ensures
        match r {
            Some(content) => manager.model().contains_key(surface_id) && content.surface_id
                == surface_id as u32 && content.json@ == json::json_text(
                state_json(manager.model()[surface_id]),
            ),
            None => !manager.model().contains_key(surface_id),
        },
{
    match manager.get(surface_id) {
        Some(state) => Some(
            HeaderContent { surface_id: surface_id as u32, json: state_to_json(state) },
        ),
        None => None,
    }
}

/// What the shell is told after the title bar of a surface has gone: that there is nothing on it.
pub fn notify_titlebar_removed(surface_id: u64) -> (r: HeaderContent)
    ensures
        r.surface_id == surface_id as u32,
        r.json@ == "{}"@,
{
    HeaderContent { surface_id: surface_id as u32, json: String::from_str("{}") }
}

/// The mode of a window.
pub open spec fn mode_of(is_tiled: bool, is_fullscreen: bool) -> TitlebarMode {
    if is_fullscreen {
        TitlebarMode::Fullscreen
    } else if is_tiled {
        TitlebarMode::Tiled
    } else {
        TitlebarMode::Floating
    }
}

/// What follows from a change of the mode of a title bar.
#[derive(Debug, PartialEq, Eq)]
pub struct ModeUpdate {
    /// The mode that the application is told.
    pub mode: TitlebarMode,
    /// What the shell is told.
    pub content: HeaderContent,
}

/// Brings the mode of a title bar in line with its window. Nothing follows where the surface has
/// no title bar, or the mode stays.
pub fn update_titlebar_mode(
    manager: &mut TitlebarManagerState,
    surface_id: u64,
    is_tiled: bool,
    is_fullscreen: bool,
) -> (r: Option<ModeUpdate>)
    ensures
        ({
            let before = old(manager).model();
            let mode = mode_of(is_tiled, is_fullscreen);
            let changes = old(manager).bound().contains(surface_id) && before.contains_key(
                surface_id,
            ) && before[surface_id].mode != mode;
            let changed = titlebar::TitlebarModel { mode, ..before[surface_id] };
            &&& final(manager).bound() == old(manager).bound()
            &&& final(manager).model() == if changes {
                before.insert(surface_id, changed)
            } else {
                before
            }
            &&& match r {
                Some(update) => changes && update.mode == mode && update.content.surface_id
                    == surface_id as u32 && update.content.json@ == json::json_text(
                    state_json(changed),
                ),
                None => !changes,
            }
        }),
{
    if !manager.has_titlebar(surface_id) {
        return None;
    }
    let mode: TitlebarMode = if is_fullscreen {
        TitlebarMode::Fullscreen
    } else if is_tiled {
        TitlebarMode::Tiled
    } else {
        TitlebarMode::Floating
    };
    if !manager.send_mode_changed(surface_id, mode).changed {
        return None;
    }
    match notify_titlebar_changed(manager, surface_id) {
        Some(content) => Some(ModeUpdate { mode, content }),
        None => None,
    }
}

/// Whether no two tabs have the same name.
pub open spec fn distinct_tabs(tabs: Seq<titlebar::TabModel>) -> bool {
    forall|i: int, j: int|
        0 <= i < j < tabs.len() ==> (#[trigger] tabs[i]).id != (#[trigger] tabs[j]).id
}

/// Removing tabs keeps their names distinct, and removes the name.
proof fn lemma_tabs_without(tabs: Seq<titlebar::TabModel>, id: Seq<char>)
    requires
        distinct_tabs(tabs),
    ensures
        distinct_tabs(tabs_without(tabs, id)),
        forall|i: int|
            0 <= i < tabs_without(tabs, id).len() ==> (#[trigger] tabs_without(tabs, id)[i]).id
                != id && tabs.contains(tabs_without(tabs, id)[i]),
{
    let keep = |t: titlebar::TabModel| t.id != id;
    lemma_filter_distinct(tabs, keep);
    seqs::lemma_filter_contains(tabs, keep);
}

/// Requests on tabs keep their names distinct.
pub proof fn tab_names_stay_distinct(
    state: titlebar::TitlebarModel,
    tab: titlebar::TabModel,
    id: Seq<char>,
    title: Seq<char>,
    status: u32,
)
    requires
        distinct_tabs(state.tabs),
    ensures
        distinct_tabs(tab_added(state, tab).tabs),
        distinct_tabs(tab_removed(state, id).tabs),
        distinct_tabs(tab_updated(state, id, title, status).tabs),
{
    lemma_tabs_without(state.tabs, tab.id);
    lemma_tabs_without(state.tabs, id);
    lemma_tab_position(state.tabs, id);
    let rest = tabs_without(state.tabs, tab.id);
    let added = tab_added(state, tab).tabs;
    assert forall|i: int, j: int| 0 <= i < j < added.len() implies (#[trigger] added[i]).id != (
    #[trigger] added[j]).id by {
        assert(added[i] == rest[i]);
        if j < rest.len() {
            assert(rest[i].id != rest[j].id);
        }
    }
    let updated = tab_updated(state, id, title, status).tabs;
    assert forall|i: int, j: int| 0 <= i < j < updated.len() implies (#[trigger] updated[i]).id
        != (#[trigger] updated[j]).id by {
        assert(state.tabs[i].id != state.tabs[j].id);
    }
}

/// The defining property of `tab_position`.
proof fn lemma_tab_position(tabs: Seq<titlebar::TabModel>, id: Seq<char>)
    ensures
        match tab_position(tabs, id) {
            Some(i) => 0 <= i < tabs.len() && tabs[i].id == id,
            None => forall|i: int| 0 <= i < tabs.len() ==> (#[trigger] tabs[i]).id != id,
        },
    decreases tabs.len(),
{
    if tabs.len() > 0 && tabs[0].id != id {
        lemma_tab_position(tabs.skip(1), id);
        if tab_position(tabs.skip(1), id) is None {
            assert forall|i: int| 0 <= i < tabs.len() implies (#[trigger] tabs[i]).id != id by {
                if i > 0 {
                    assert(tabs.skip(1)[i - 1] == tabs[i]);
                }
            }
        }
    }
}

/// A tab that was removed is not the active one.
pub proof fn a_removed_tab_is_not_active(state: titlebar::TitlebarModel, id: Seq<char>)
    requires
        distinct_tabs(state.tabs),
    ensures
        tab_removed(state, id).active_tab != Some(id),
{
    lemma_tabs_without(state.tabs, id);
}

/// A tab that was added is there, and removing it leaves the other tabs.
pub proof fn removing_undoes_adding(state: titlebar::TitlebarModel, tab: titlebar::TabModel)
    ensures
        tab_added(state, tab).tabs.contains(tab),
        tab_removed(tab_added(state, tab), tab.id).tabs == tabs_without(state.tabs, tab.id),
{
    let keep = |t: titlebar::TabModel| t.id != tab.id;
    let rest = state.tabs.filter(keep);
    let added = tab_added(state, tab).tabs;
    assert(added[rest.len() as int] == tab);
    seqs::lemma_filter_push(rest, keep, tab);
    seqs::lemma_filter_contains(state.tabs, keep);
    lemma_filter_all(rest, keep);
}

/// What is picked: each tab with one of the names, once.
proof fn lemma_picked(tabs: Seq<titlebar::TabModel>, ids: Seq<Seq<char>>)
    requires
        distinct_tabs(tabs),
        ids.no_duplicates(),
    ensures
        distinct_tabs(picked(tabs, ids)),
        forall|i: int|
            0 <= i < picked(tabs, ids).len() ==> tabs.contains(#[trigger] picked(tabs, ids)[i])
                && ids.contains(picked(tabs, ids)[i].id),
        forall|t: titlebar::TabModel| #[trigger]
            tabs.contains(t) && ids.contains(t.id) ==> picked(tabs, ids).contains(t),
    decreases ids.len(),
{
    let all = picked(tabs, ids);
    if ids.len() > 0 {
        let init = ids.drop_last();
        let last = ids.last();
        assert forall|i: int, j: int| 0 <= i < init.len() && 0 <= j < init.len() && i
            != j implies init[i] != init[j] by {
            assert(ids[i] != ids[j]);
        }
        lemma_picked(tabs, init);
        lemma_tab_position(tabs, last);
        let before = picked(tabs, init);
        assert forall|i: int| 0 <= i < all.len() implies tabs.contains(#[trigger] all[i])
            && ids.contains(all[i].id) by {
            if i < before.len() {
                assert(all[i] == before[i]);
                let k = choose|k: int| 0 <= k < init.len() && init[k] == before[i].id;
                assert(ids[k] == all[i].id);
            } else {
                assert(ids[ids.len() - 1] == last);
            }
        }
        assert forall|i: int, j: int| 0 <= i < j < all.len() implies (#[trigger] all[i]).id != (
        #[trigger] all[j]).id by {
            assert(all[i] == before[i]);
            if j < before.len() {
                assert(before[i].id != before[j].id);
            } else {
                let k = choose|k: int| 0 <= k < init.len() && init[k] == before[i].id;
                assert(ids[k] != ids[ids.len() - 1]);
            }
        }
        assert forall|t: titlebar::TabModel| #[trigger] tabs.contains(t) && ids.contains(
            t.id,
        ) implies all.contains(t) by {
            let k = choose|k: int| 0 <= k < ids.len() && ids[k] == t.id;
            let m = choose|m: int| 0 <= m < tabs.len() && tabs[m] == t;
            if k < init.len() {
                assert(init[k] == t.id);
                assert(before.contains(t));
                let n = choose|n: int| 0 <= n < before.len() && before[n] == t;
                assert(all[n] == t);
            } else {
                let i = tab_position(tabs, last)->0;
                assert(tabs[m].id == tabs[i].id);
                assert(m == i);
                assert(all[before.len() as int] == t);
            }
        }
    }
}

/// Putting the tabs in another order loses none and adds none, where no name is given twice.
pub proof fn reordering_keeps_the_tabs(state: titlebar::TitlebarModel, ids: Seq<Seq<char>>)
    requires
        distinct_tabs(state.tabs),
        ids.no_duplicates(),
    ensures
        distinct_tabs(tabs_reordered(state, Some(ids)).tabs),
        tabs_reordered(state, Some(ids)).tabs.to_multiset() == state.tabs.to_multiset(),
{
    let tabs = state.tabs;
    let keep = |t: titlebar::TabModel| !ids.contains(t.id);
    let first = picked(tabs, ids);
    let rest = tabs.filter(keep);
    let all = first + rest;
    lemma_picked(tabs, ids);
    seqs::lemma_filter_contains(tabs, keep);
    lemma_filter_distinct(tabs, keep);
    assert forall|i: int, j: int| 0 <= i < j < all.len() implies (#[trigger] all[i]).id != (
    #[trigger] all[j]).id by {
        if j < first.len() {
            assert(first[i].id != first[j].id);
        } else if i >= first.len() {
            assert(all[i] == rest[i - first.len()]);
            assert(all[j] == rest[j - first.len()]);
        } else {
            assert(all[i] == first[i]);
            assert(all[j] == rest[j - first.len()]);
            assert(keep(rest[j - first.len()]));
            assert(ids.contains(first[i].id));
        }
    }
    lemma_counts(all);
    lemma_counts(tabs);
    assert forall|t: titlebar::TabModel| all.to_multiset().count(t) == tabs.to_multiset().count(
        t,
    ) by {
        if all.contains(t) {
            let i = choose|i: int| 0 <= i < all.len() && all[i] == t;
            if i < first.len() {
                assert(tabs.contains(first[i]));
            } else {
                assert(all[i] == rest[i - first.len()]);
                assert(tabs.contains(rest[i - first.len()]));
            }
        }
        if tabs.contains(t) {
            if ids.contains(t.id) {
                assert(first.contains(t));
                let n = choose|n: int| 0 <= n < first.len() && first[n] == t;
                assert(all[n] == t);
            } else {
                let m = choose|m: int| 0 <= m < tabs.len() && tabs[m] == t;
                assert(keep(tabs[m]));
                assert(rest.contains(t));
                let n = choose|n: int| 0 <= n < rest.len() && rest[n] == t;
                assert(all[first.len() + n] == t);
            }
        }
    }
    assert(all.to_multiset() =~= tabs.to_multiset());
}

/// What a filter keeps has distinct names where all have.
proof fn lemma_filter_distinct(
    tabs: Seq<titlebar::TabModel>,
    keep: spec_fn(titlebar::TabModel) -> bool,
)
    requires
        distinct_tabs(tabs),
    ensures
        distinct_tabs(tabs.filter(keep)),
    decreases tabs.len(),
{
    reveal(Seq::filter);
    if tabs.len() > 0 {
        let init = tabs.drop_last();
        assert forall|i: int, j: int| 0 <= i < j < init.len() implies (#[trigger] init[i]).id
            != (#[trigger] init[j]).id by {
            assert(tabs[i].id != tabs[j].id);
        }
        lemma_filter_distinct(init, keep);
        seqs::lemma_filter_contains(init, keep);
        let rest = init.filter(keep);
        let all = tabs.filter(keep);
        assert forall|i: int, j: int| 0 <= i < j < all.len() implies (#[trigger] all[i]).id != (
        #[trigger] all[j]).id by {
            if j < rest.len() {
                assert(rest[i].id != rest[j].id);
            } else {
                assert(all[i] == rest[i]);
                let k = choose|k: int| 0 <= k < init.len() && init[k] == rest[i];
                assert(tabs[k].id != tabs[tabs.len() - 1].id);
            }
        }
    }
}

/// Tabs with distinct names occur once.
proof fn lemma_counts(tabs: Seq<titlebar::TabModel>)
    requires
        distinct_tabs(tabs),
    ensures
        forall|t: titlebar::TabModel| #[trigger]
            tabs.to_multiset().count(t) == if tabs.contains(t) {
                1nat
            } else {
                0
            },
{
    broadcast use vstd::seq_lib::group_to_multiset_ensures;

    assert(tabs.no_duplicates()) by {
        assert forall|i: int, j: int| 0 <= i < tabs.len() && 0 <= j < tabs.len() && i
            != j implies tabs[i] != tabs[j] by {
            if i < j {
                assert(tabs[i].id != tabs[j].id);
            } else {
                assert(tabs[j].id != tabs[i].id);
            }
        }
    }
    tabs.lemma_multiset_has_no_duplicates();
    assert forall|t: titlebar::TabModel| #[trigger] tabs.to_multiset().count(t) == if tabs.contains(
        t,
    ) {
        1nat
    } else {
        0
    } by {
        assert(tabs.contains(t) <==> tabs.to_multiset().count(t) > 0);
        if tabs.contains(t) {
            assert(tabs.to_multiset().contains(t));
        }
    }
}

/// A filter that keeps every element changes nothing.
proof fn lemma_filter_all(
    tabs: Seq<titlebar::TabModel>,
    keep: spec_fn(titlebar::TabModel) -> bool,
)
    requires
        forall|i: int| 0 <= i < tabs.len() ==> keep(#[trigger] tabs[i]),
    ensures
        tabs.filter(keep) == tabs,
    decreases tabs.len(),
{
    reveal(Seq::filter);
    if tabs.len() > 0 {
        lemma_filter_all(tabs.drop_last(), keep);
        assert(tabs.drop_last().push(tabs.last()) =~= tabs);
    }
}

} // verus!
