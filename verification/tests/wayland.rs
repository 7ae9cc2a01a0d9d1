//! The protocols of the shell: title bars, menus, attachments and decorations.

use lunaris_compositor::config::comp::ZoomConfig;
use lunaris_compositor::shell::grabs::menu::Item;
use lunaris_compositor::shell::zoom::ZoomMovement;
use lunaris_compositor::wayland::client::bound_version;
use lunaris_compositor::wayland::handlers::decoration::{
    request_mode, unset_mode, DecorationMode, KdeDecorationSurfaceState, KdeMode,
    PreferredDecorationMode, WindowLookup,
};
use lunaris_compositor::wayland::handlers::shell_overlay::{
    context_menu_activate, context_menu_dismiss, set_layout_mode, tab_activate, tiling_switch,
    unset_overlay_grab, window_header_action, zoom_change, zoom_close, zoom_set_increment,
    zoom_set_movement, ActiveWindow, HeaderAction, LayoutChange, LayoutMode, MenuOutcome, SeatMenu,
    StackTabs,
};
use lunaris_compositor::wayland::handlers::titlebar::{
    handle_activate_tab, handle_add_button, handle_add_tab, handle_remove_button,
    handle_remove_tab, handle_reorder_tabs, handle_set_button_enabled, handle_update_tab,
    notify_titlebar_changed, notify_titlebar_removed, reorder_tabs, state_to_json,
    update_titlebar_mode,
};
use lunaris_compositor::wayland::protocols::shell_overlay::{
    ContextMenuItem, OverlayEvent, ShellOverlayState, WindowAction,
};
use lunaris_compositor::wayland::protocols::titlebar::{
    apply_request, TitlebarManagerState, TitlebarMode, TitlebarRequest, TitlebarState,
};
use lunaris_compositor::wayland::protocols::window_attach::{
    AttachmentInner, AttachmentSnapshot, Placement, WindowAttachState,
};
use std::collections::HashMap;

fn empty_state() -> TitlebarState {
    TitlebarState::default()
}

fn tab_ids(state: &TitlebarState) -> Vec<&str> {
    state.tabs.iter().map(|t| t.id.as_str()).collect()
}

#[test]
fn test_add_tab() {
    let mut state = empty_state();
    handle_add_tab(&mut state, "tab1", "Hello", None, 0);
    assert_eq!(state.tabs.len(), 1);
    assert_eq!(state.tabs[0].title, "Hello");
}

#[test]
fn test_remove_tab() {
    let mut state = empty_state();
    handle_add_tab(&mut state, "tab1", "A", None, 0);
    handle_add_tab(&mut state, "tab2", "B", None, 0);
    handle_remove_tab(&mut state, "tab1");
    assert_eq!(state.tabs.len(), 1);
    assert_eq!(state.tabs[0].id, "tab2");
}

#[test]
fn test_remove_active_tab_fallback() {
    let mut state = empty_state();
    handle_add_tab(&mut state, "tab1", "A", None, 0);
    handle_add_tab(&mut state, "tab2", "B", None, 0);
    handle_activate_tab(&mut state, "tab1");
    handle_remove_tab(&mut state, "tab1");
    assert_eq!(state.active_tab.as_deref(), Some("tab2"));
}

#[test]
fn test_update_tab() {
    let mut state = empty_state();
    handle_add_tab(&mut state, "tab1", "Old", None, 0);
    handle_update_tab(&mut state, "tab1", "New", 1);
    assert_eq!(state.tabs[0].title, "New");
    assert_eq!(state.tabs[0].status, 1);
}

#[test]
fn test_reorder_tabs() {
    let mut state = empty_state();
    handle_add_tab(&mut state, "a", "A", None, 0);
    handle_add_tab(&mut state, "b", "B", None, 0);
    handle_add_tab(&mut state, "c", "C", None, 0);
    handle_reorder_tabs(&mut state, r#"["c","a","b"]"#);
    assert_eq!(state.tabs[0].id, "c");
    assert_eq!(state.tabs[1].id, "a");
    assert_eq!(state.tabs[2].id, "b");
}

#[test]
fn test_add_button() {
    let mut state = empty_state();
    handle_add_button(&mut state, "btn1", "save", "Save", 1);
    assert_eq!(state.buttons.len(), 1);
    assert_eq!(state.buttons[0].icon, "save");
    assert!(state.buttons[0].enabled);
}

#[test]
fn test_set_button_enabled() {
    let mut state = empty_state();
    handle_add_button(&mut state, "btn1", "save", "Save", 1);
    handle_set_button_enabled(&mut state, "btn1", false);
    assert!(!state.buttons[0].enabled);
}

#[test]
fn test_state_to_json() {
    let mut state = empty_state();
    state.title = "Test".into();
    handle_add_tab(&mut state, "t1", "Tab 1", Some("file"), 0);
    let json = state_to_json(&state);
    assert!(json.contains("Test"));
    assert!(json.contains("Tab 1"));
    assert!(json.contains("\"mode\":\"floating\""));
}

#[test]
fn test_state_to_json_tiled_mode() {
    let mut state = empty_state();
    state.mode = TitlebarMode::Tiled;
    state.title = "Tiled Window".into();
    let json = state_to_json(&state);
    assert!(json.contains("\"mode\":\"tiled\""));
}

#[test]
fn test_state_to_json_fullscreen_mode() {
    let mut state = empty_state();
    state.mode = TitlebarMode::Fullscreen;
    let json = state_to_json(&state);
    assert!(json.contains("\"mode\":\"fullscreen\""));
}

#[test]
fn test_state_to_json_frameless_mode() {
    let mut state = empty_state();
    state.mode = TitlebarMode::Frameless;
    let json = state_to_json(&state);
    assert!(json.contains("\"mode\":\"frameless\""));
}

#[test]
fn a_title_bar_is_written_as_json() {
    let mut state = empty_state();
    state.title = "He said \"hi\"".into();
    state.search_mode = true;
    state.center_content = 2;
    handle_add_tab(&mut state, "t1", "Tab", None, 3);
    handle_activate_tab(&mut state, "t1");
    handle_add_button(&mut state, "b1", "save", "Save", 1);
    let json: serde_json::Value = serde_json::from_str(&state_to_json(&state)).unwrap();
    assert_eq!(json["title"], "He said \"hi\"");
    assert_eq!(json["tabs"][0]["id"], "t1");
    assert_eq!(json["tabs"][0]["icon"], serde_json::Value::Null);
    assert_eq!(json["tabs"][0]["status"], 3);
    assert_eq!(json["active_tab"], "t1");
    assert_eq!(json["buttons"][0]["enabled"], true);
    assert_eq!(json["buttons"][0]["position"], 1);
    assert_eq!(json["breadcrumb"], "");
    assert_eq!(json["center_content"], 2);
    assert_eq!(json["search_mode"], true);
    assert_eq!(json.as_object().unwrap().len(), 8);
}

#[test]
fn tabs_are_put_in_order() {
    let mut state = empty_state();
    for id in ["a", "b", "c"] {
        handle_add_tab(&mut state, id, id, None, 0);
    }
    handle_reorder_tabs(&mut state, r#"["c","x"]"#);
    assert_eq!(tab_ids(&state), vec!["c", "a", "b"]);
    handle_reorder_tabs(&mut state, "not json");
    assert_eq!(tab_ids(&state), vec!["c", "a", "b"]);
    handle_reorder_tabs(&mut state, r#"{"a":1}"#);
    assert_eq!(tab_ids(&state), vec!["c", "a", "b"]);
    reorder_tabs(&mut state, &vec!["b".to_string()]);
    assert_eq!(tab_ids(&state), vec!["b", "c", "a"]);
}

#[test]
fn tabs_and_buttons_have_one_entry_for_a_name() {
    let mut state = empty_state();
    handle_add_tab(&mut state, "a", "first", None, 0);
    handle_add_tab(&mut state, "a", "second", Some("icon"), 1);
    assert_eq!(tab_ids(&state), vec!["a"]);
    assert_eq!(state.tabs[0].title, "second");
    handle_add_button(&mut state, "b", "x", "X", 0);
    handle_remove_button(&mut state, "c");
    assert_eq!(state.buttons.len(), 1);
    handle_remove_button(&mut state, "b");
    assert!(state.buttons.is_empty());
}

#[test]
fn requests_change_the_title_bar() {
    let mut state = empty_state();
    let mut ask = |request| apply_request(&mut state, request);
    assert!(ask(TitlebarRequest::SetTitle { title: "T".into() }));
    assert!(ask(TitlebarRequest::SetBreadcrumb { segments_json: "[]".into() }));
    assert!(ask(TitlebarRequest::SetCenterContent { content: 4 }));
    assert!(ask(TitlebarRequest::AddTab {
        id: "a".into(),
        title: "A".into(),
        icon: None,
        status: 0
    }));
    assert!(ask(TitlebarRequest::UpdateTab { id: "a".into(), title: "B".into(), status: 2 }));
    assert!(ask(TitlebarRequest::ActivateTab { id: "a".into() }));
    assert!(ask(TitlebarRequest::AddButton {
        id: "b".into(),
        icon_name: "i".into(),
        tooltip: "t".into(),
        position: 1
    }));
    assert!(ask(TitlebarRequest::SetButtonEnabled { id: "b".into(), enabled: 0 }));
    assert!(ask(TitlebarRequest::SetSearchMode { enabled: 7 }));
    assert!(!ask(TitlebarRequest::Other));
    assert_eq!((state.title.as_str(), state.breadcrumb_json.as_str()), ("T", "[]"));
    assert_eq!(state.center_content, 4);
    assert_eq!((state.tabs[0].title.as_str(), state.tabs[0].status), ("B", 2));
    assert_eq!(state.active_tab.as_deref(), Some("a"));
    assert!(!state.buttons[0].enabled);
    assert!(state.search_mode);
}

#[test]
fn title_bars_are_kept_by_surface() {
    let mut manager = TitlebarManagerState::new();
    assert!(manager.get(1).is_none());
    manager.get_titlebar(1);
    assert!(manager.has_titlebar(1));
    assert!(manager.request(1, TitlebarRequest::SetTitle { title: "T".into() }));
    assert_eq!(manager.get(1).unwrap().title, "T");
    assert!(manager.request(2, TitlebarRequest::SetTitle { title: "U".into() }));
    assert!(!manager.has_titlebar(2));
    assert_eq!(manager.active_surface_ids(), vec![1]);

    let content = notify_titlebar_changed(&manager, 1).unwrap();
    assert_eq!(content.surface_id, 1);
    assert!(content.json.contains("\"title\":\"T\""));
    assert!(notify_titlebar_changed(&manager, 3).is_none());
    assert_eq!(notify_titlebar_removed(1).json, "{}");

    assert!(update_titlebar_mode(&mut manager, 1, false, false).is_none());
    let update = update_titlebar_mode(&mut manager, 1, true, true).unwrap();
    assert_eq!(update.mode, TitlebarMode::Fullscreen);
    assert!(update.content.json.contains("\"mode\":\"fullscreen\""));
    assert!(update_titlebar_mode(&mut manager, 2, true, false).is_none());
    let change = manager.send_mode_changed(1, TitlebarMode::Tiled);
    assert_eq!((change.changed, change.event), (true, Some(TitlebarMode::Tiled.code())));
    let change = manager.send_mode_changed(2, TitlebarMode::Tiled);
    assert_eq!((change.changed, change.event), (true, None));
    manager.destroyed(1);
    assert!(manager.get(1).is_none() && !manager.has_titlebar(1));
}

#[test]
fn window_action_roundtrip() {
    for value in 1u32..=18 {
        let action = WindowAction::try_from(value).expect("value in range should parse");
        assert_eq!(action.code(), value, "roundtrip failed for value {value}");
    }
}

#[test]
fn window_action_invalid_returns_err() {
    assert!(WindowAction::try_from(0).is_err());
    assert!(WindowAction::try_from(19).is_err());
    assert!(WindowAction::try_from(u32::MAX).is_err());
}

#[test]
fn menu_id_wraps_without_panic() {
    let mut overlay = ShellOverlayState::new();
    overlay.bind(1);
    overlay.next_menu_id = u32::MAX;
    assert_eq!(overlay.send_context_menu(0, 0, &vec![]).unwrap().menu_id, u32::MAX);
    assert_eq!(overlay.next_menu_id, 0);
}

#[test]
fn menus_are_told_item_by_item() {
    let mut overlay = ShellOverlayState::new();
    assert!(overlay.send_context_menu(3, 4, &vec![]).is_none());
    assert_eq!(overlay.overlay_instance(), None);
    overlay.bind(8);
    overlay.bind(9);
    let first = overlay.next_menu_id;
    let items = vec![
        ContextMenuItem::Entry {
            action: WindowAction::Close,
            toggled: true,
            disabled: false,
            shortcut: Some("Super+Q".into()),
        },
        ContextMenuItem::Separator,
    ];
    let sent = overlay.send_context_menu(3, 4, &items).unwrap();
    assert_eq!(sent.menu_id, first);
    assert_eq!(sent.recipients, vec![8, 9]);
    assert_eq!(
        sent.events,
        vec![
            OverlayEvent::ContextMenuBegin { menu_id: first, x: 3, y: 4 },
            OverlayEvent::ContextMenuItem {
                menu_id: first,
                index: 0,
                action: WindowAction::Close.code(),
                toggled: 1,
                disabled: 0,
                shortcut: "Super+Q".into(),
            },
            OverlayEvent::ContextMenuSeparator { menu_id: first, index: 1 },
            OverlayEvent::ContextMenuDone { menu_id: first },
        ]
    );
    overlay.destroyed(8);
    assert_eq!(overlay.overlay_instance(), Some(9));
}

#[test]
fn every_shell_is_told_of_tabs_and_menus() {
    let mut overlay = ShellOverlayState::new();
    assert!(overlay.send_tab_bar_hide(1).recipients.is_empty());
    overlay.bind(8);
    overlay.bind(9);
    let added = overlay.send_tab_added(1, 2, "t".into(), "a".into(), true);
    assert_eq!(added.recipients, vec![8, 9]);
    assert_eq!(
        added.event,
        OverlayEvent::TabAdded {
            stack_id: 1,
            index: 2,
            title: "t".into(),
            app_id: "a".into(),
            active: 1
        }
    );
    let told = [
        (
            overlay.send_tab_bar_show(1, 2, 3, 4, 5),
            OverlayEvent::TabBarShow { stack_id: 1, x: 2, y: 3, width: 4, height: 5 },
        ),
        (overlay.send_tab_bar_hide(1), OverlayEvent::TabBarHide { stack_id: 1 }),
        (overlay.send_tab_removed(1, 2), OverlayEvent::TabRemoved { stack_id: 1, index: 2 }),
        (overlay.send_tab_activated(1, 2), OverlayEvent::TabActivated { stack_id: 1, index: 2 }),
        (
            overlay.send_tab_title_changed(1, 2, "n".into()),
            OverlayEvent::TabTitleChanged { stack_id: 1, index: 2, title: "n".into() },
        ),
        (overlay.close_context_menu(7), OverlayEvent::ContextMenuClosed { menu_id: 7 }),
        (overlay.send_layout_mode_changed(2), OverlayEvent::LayoutModeChanged { mode: 2 }),
    ];
    for (sent, event) in told {
        assert_eq!(sent.recipients, vec![8, 9]);
        assert_eq!(sent.event, event);
    }
}

#[test]
fn a_menu_is_closed_once() {
    let mut pending = HashMap::new();
    pending.insert(5, vec![Item::new("A".into()), Item::Separator]);
    assert_eq!(context_menu_activate(&mut pending, 4, 0), MenuOutcome::UnknownMenu);
    assert_eq!(
        context_menu_activate(&mut pending, 5, 0),
        MenuOutcome::Closed { chosen: Some(0) }
    );
    assert_eq!(context_menu_activate(&mut pending, 5, 0), MenuOutcome::UnknownMenu);
    pending.insert(6, vec![Item::Separator]);
    assert_eq!(context_menu_activate(&mut pending, 6, 0), MenuOutcome::Closed { chosen: None });
    pending.insert(7, vec![]);
    assert_eq!(context_menu_dismiss(&mut pending, 7), MenuOutcome::Closed { chosen: None });
    assert!(pending.is_empty());
    let seats = vec![
        SeatMenu { seat: 1, menu_id: None },
        SeatMenu { seat: 2, menu_id: Some(7) },
        SeatMenu { seat: 3, menu_id: Some(7) },
    ];
    assert_eq!(unset_overlay_grab(&seats, 7), Some(2));
    assert_eq!(unset_overlay_grab(&seats, 8), None);
}

#[test]
fn the_shell_controls_the_magnifier() {
    let mut zoom = ZoomConfig {
        start_on_login: false,
        show_overlay: true,
        increment: 25,
        view_moves: ZoomMovement::Continuously,
        enable_mouse_zoom_shortcuts: false,
    };
    assert_eq!(zoom_change(&zoom, true), 25);
    assert_eq!(zoom_change(&zoom, false), -25);
    zoom_close(&mut zoom);
    assert!(!zoom.show_overlay);
    zoom_set_increment(&mut zoom, 50);
    assert_eq!(zoom.increment, 50);
    assert!(zoom_set_movement(&mut zoom, 3));
    assert_eq!(zoom.view_moves, ZoomMovement::Centered);
    assert!(!zoom_set_movement(&mut zoom, 4));
    assert_eq!(zoom.view_moves, ZoomMovement::Centered);
}

#[test]
fn header_buttons_act_on_their_window() {
    let window = |window, surface_id, maximized| ActiveWindow { window, surface_id, maximized };
    let windows = vec![window(1, None, false), window(2, Some(7), true), window(3, Some(7), false)];
    assert_eq!(window_header_action(&windows, 7, 1), HeaderAction::Minimize { window: 2 });
    assert_eq!(
        window_header_action(&windows, 7, 2),
        HeaderAction::SetMaximized { window: 2, maximized: false }
    );
    assert_eq!(window_header_action(&windows, 7, 3), HeaderAction::Close { window: 2 });
    assert_eq!(window_header_action(&windows, 7, 4), HeaderAction::Move { window: 2 });
    assert_eq!(window_header_action(&windows, 7, 5), HeaderAction::UnknownAction);
    assert_eq!(window_header_action(&windows, 8, 1), HeaderAction::UnknownSurface);
}

#[test]
fn the_shell_changes_the_layout() {
    assert_eq!(set_layout_mode(LayoutMode::Tiling, 1), LayoutChange::Keep);
    assert_eq!(set_layout_mode(LayoutMode::Tiling, 9), LayoutChange::Keep);
    assert_eq!(set_layout_mode(LayoutMode::Tiling, 2), LayoutChange::EnterMonocle);
    assert_eq!(
        set_layout_mode(LayoutMode::Monocle, 0),
        LayoutChange::Arrange { exit_monocle: true, tiling: false }
    );
    assert_eq!(
        set_layout_mode(LayoutMode::Floating, 1),
        LayoutChange::Arrange { exit_monocle: false, tiling: true }
    );
    assert_eq!(LayoutMode::from_code(2).unwrap().code(), 2);
    assert_eq!(tiling_switch(true, false), Some(true));
    assert_eq!(tiling_switch(true, true), None);
}

#[test]
fn the_shell_activates_tabs() {
    let stack = |stack_id, windows| StackTabs { stack_id, windows };
    let stacks = vec![stack(1, vec![10]), stack(2, vec![20, 21])];
    assert_eq!(tab_activate(&stacks, 2, 1), Some((1, 21)));
    assert_eq!(tab_activate(&stacks, 2, 2), None);
    assert_eq!(tab_activate(&stacks, 3, 0), None);
}

#[test]
fn inner_default_is_dormant() {
    let inner = AttachmentInner::default();
    assert!(inner.window_id.is_none());
    assert_eq!(inner.offset_x, 0);
    assert_eq!(inner.offset_y, 0);
    assert_eq!(inner.width, 0);
    assert_eq!(inner.height, 0);
    assert!(inner.surface.is_none());
}

#[test]
fn snapshot_is_empty_without_bindings() {
    let state = WindowAttachState::default();
    assert!(state.snapshot().is_empty());
    assert!(!state.has_attach_aware_shell());
}

#[test]
fn attachments_and_windows_stay_consistent() {
    let at = |offset_x| Placement { offset_x, offset_y: 0, width: 1, height: 1 };
    let consistent = |state: &WindowAttachState| {
        let window = |id: u64| {
            state.attachments.iter().find(|a| a.id == id).and_then(|a| a.inner.window_id)
        };
        state.bindings.iter().all(|b| window(b.attachment) == Some(b.window_id))
            && state.attachments.iter().all(|a| {
                a.inner.window_id.is_none_or(|w| {
                    state.bindings.iter().any(|b| b.window_id == w && b.attachment == a.id)
                })
            })
    };
    let mut state = WindowAttachState::default();
    let steps: [fn(&mut WindowAttachState, Placement); 7] = [
        |s, _| s.bind_manager(1),
        |s, _| s.get_attachment(11, 500),
        |s, at| s.attach_to_window(11, 7, at),
        |s, at| s.attach_to_window(11, 8, at),
        |s, at| s.update_geometry(11, at),
        |s, _| assert_eq!(s.unbind_window(8), vec![11]),
        |s, _| s.destroy(11),
    ];
    for (i, step) in steps.iter().enumerate() {
        step(&mut state, at(i as i32));
        assert!(consistent(&state), "step {i}");
    }
    assert!(state.bindings.is_empty());
}

#[test]
fn attachments_follow_their_window() {
    let at = |offset_x| Placement { offset_x, offset_y: 2, width: 30, height: 40 };
    let mut state = WindowAttachState::default();
    state.bind_manager(1);
    assert!(state.has_attach_aware_shell());
    state.get_attachment(11, 500);
    state.get_attachment(12, 501);
    assert!(state.snapshot().is_empty());
    state.attach_to_window(11, 7, at(1));
    state.attach_to_window(12, 7, at(3));
    assert_eq!(state.snapshot().len(), 2);
    assert_eq!(
        state.snapshot()[0],
        AttachmentSnapshot {
            window_id: 7,
            surface: 500,
            offset_x: 1,
            offset_y: 2,
            width: 30,
            height: 40
        }
    );
    state.attach_to_window(12, 8, at(3));
    state.update_geometry(11, at(9));
    assert_eq!(state.snapshot()[0].offset_x, 9);
    assert_eq!(state.unbind_window(7), vec![11]);
    assert_eq!(state.snapshot().len(), 1);
    assert_eq!(state.snapshot()[0].window_id, 8);
    state.destroy(12);
    assert!(state.snapshot().is_empty());
    state.manager_destroyed(1);
    assert!(!state.has_attach_aware_shell());
}

#[test]
fn windows_say_who_decorates_them() {
    let mut preferred = PreferredDecorationMode::Unset;
    assert!(preferred.is_unset());
    assert_eq!(preferred.mode(), None);
    assert!(!preferred.is_unset());
    preferred.update(Some(DecorationMode::ServerSide));
    assert_eq!(preferred.mode(), Some(DecorationMode::ServerSide));

    let change = request_mode(WindowLookup::Shown);
    assert!(change.updates_preference && change.updates_pending && change.configures);
    let change = request_mode(WindowLookup::Unknown);
    assert!(!change.updates_preference && change.updates_pending && !change.configures);
    assert!(!request_mode(WindowLookup::Missing).updates_pending);
    assert!(!unset_mode(WindowLookup::Unknown).updates_pending);
    assert!(unset_mode(WindowLookup::Shown).configures);

    let mut kde = KdeDecorationSurfaceState::default();
    kde.new_decoration(4);
    kde.new_decoration(5);
    assert_eq!(kde.request_mode(Some(KdeMode::Server)), Some(KdeMode::Server));
    assert_eq!(kde.request_mode(None), None);
    assert_eq!(kde.mode, Some(KdeMode::Server));
    kde.release(4);
    assert_eq!(kde.mode, Some(KdeMode::Server));
    kde.release(5);
    assert_eq!(kde.mode, None);
}

#[test]
fn a_client_binds_what_both_sides_know() {
    assert_eq!(bound_version("wl_compositor", 6), Some(4));
    assert_eq!(bound_version("wl_compositor", 3), Some(3));
    assert_eq!(bound_version("wl_shm", 2), Some(1));
    assert_eq!(bound_version("xdg_wm_base", 6), Some(2));
    assert_eq!(bound_version("wl_seat", 6), None);
}
