//! What clients register over the bus, which binding a key press invokes, and the events that
//! are reported.

use lunaris_compositor::config::keybinding::{bind, FragmentEntry, KeyBindingModifiers};
use lunaris_compositor::dbus::app_interface::{AppInfo, AppRegistry, DeclaredAction};
use lunaris_compositor::dbus::error::{BusError, ErrorKind};
use lunaris_compositor::dbus::input_manager::{
    emit_binding_invoked, register_binding, registration_dominates, signal_outcome,
    unregister_all, unregister_binding, validate_binding, validate_scope, BindingInfo,
    DynamicBindings, SignalOutcome,
};
use lunaris_compositor::event_bus::{
    encode, next_action, session_id, socket_path, EventBusHandle, SenderAction, SenderEvent, Stamp,
};
use lunaris_compositor::input::binding_resolver::{
    static_bindings, BindingResolver, BindingScope, StaticBinding,
};
use lunaris_compositor::logger::{default_level, log_directives};

fn app(owner: &str, app_id: &str) -> AppInfo {
    AppInfo {
        app_id: app_id.into(),
        name: format!("Display name for {app_id}"),
        owner: owner.into(),
        declared_actions: vec![],
        permissions: vec![],
    }
}

fn app_with_perms(owner: &str, app_id: &str, permissions: Vec<&str>) -> AppInfo {
    AppInfo {
        permissions: permissions.into_iter().map(String::from).collect(),
        ..app(owner, app_id)
    }
}

#[test]
fn insert_and_lookup_by_owner_and_app_id() {
    let mut r = AppRegistry::default();
    r.insert(app(":1.10", "org.editor"));
    r.insert(app(":1.11", "org.terminal"));
    assert_eq!(r.by_owner(":1.10").unwrap().app_id, "org.editor");
    assert_eq!(r.by_app_id("org.terminal").unwrap().owner, ":1.11");
    assert!(r.by_owner(":1.999").is_none());
    assert!(r.by_app_id("unknown").is_none());
}

#[test]
fn insert_replaces_on_same_owner() {
    let mut r = AppRegistry::default();
    r.insert(app(":1.10", "org.editor"));
    r.insert(AppInfo {
        app_id: "org.editor".into(),
        name: "Editor v2".into(),
        owner: ":1.10".into(),
        declared_actions: vec![DeclaredAction {
            id: "save".into(),
            label: "Save".into(),
            description: String::new(),
        }],
        permissions: vec![],
    });
    let info = r.by_owner(":1.10").unwrap();
    assert_eq!(info.name, "Editor v2");
    assert_eq!(info.declared_actions.len(), 1);
}

#[test]
fn permissions_lookup() {
    let a = app_with_perms(":1.1", "org.a", vec!["register_global_bindings"]);
    assert!(a.can_register_global_bindings());

    let b = app_with_perms(":1.2", "org.b", vec!["register_focused_bindings"]);
    assert!(!b.can_register_global_bindings());

    let c = app(":1.3", "org.c");
    assert!(!c.can_register_global_bindings());
}

#[test]
fn permissions_forward_compat_keeps_unknown() {
    let info = app_with_perms(":1.4", "org.d", vec!["future_permission"]);
    assert_eq!(info.permissions, vec!["future_permission".to_string()]);
    let mut r = AppRegistry::default();
    r.insert(info);
    assert_eq!(r.all()[0].permissions, vec!["future_permission".to_string()]);
}

#[test]
fn remove_owner_returns_entry() {
    let mut r = AppRegistry::default();
    r.insert(app(":1.10", "org.editor"));
    let removed = r.remove_owner(":1.10");
    assert!(removed.is_some());
    assert!(r.by_owner(":1.10").is_none());
    assert!(r.remove_owner(":1.10").is_none());
}

#[test]
fn all_and_is_empty() {
    let mut r = AppRegistry::default();
    assert!(r.is_empty());
    r.insert(app(":1.1", "a"));
    r.insert(app(":1.2", "b"));
    assert!(!r.is_empty());
    assert_eq!(r.all().len(), 2);
    assert_eq!(r.list_apps()[1], ("b".to_string(), "Display name for b".to_string()));
}

#[test]
fn by_app_id_returns_first_match_only() {
    let mut r = AppRegistry::default();
    r.insert(app(":1.10", "org.same"));
    r.insert(app(":1.11", "org.same"));
    let info = r.by_app_id("org.same").unwrap();
    assert!(info.owner == ":1.10" || info.owner == ":1.11");
}

#[test]
fn apps_register_for_their_sender() {
    let mut r = AppRegistry::default();
    let register = |r: &mut AppRegistry, sender: Option<&str>, app_id: &str| {
        r.register_app(
            sender.map(String::from),
            app_id.into(),
            "Name".into(),
            vec![],
            vec!["register_global_bindings".into()],
        )
    };
    assert_eq!(register(&mut r, Some(":1.1"), "org.a"), Ok(true));
    assert_eq!(r.get_app_id(":1.1"), "org.a");
    assert_eq!(r.get_app_id(":1.2"), "");
    assert_eq!(register(&mut r, Some(":1.2"), ""), Err(BusError::EmptyAppId));
    assert_eq!(register(&mut r, None, "org.b"), Err(BusError::NoSender));
    assert_eq!(r.all().len(), 1);
    assert_eq!(r.unregister_app(None), Err(BusError::NoSender));
    assert_eq!(r.unregister_app(Some(":1.9".into())), Ok(false));
    assert_eq!(r.unregister_app(Some(":1.1".into())), Ok(true));
    assert!(r.is_empty());
}

#[test]
fn a_client_that_is_gone_is_dropped() {
    let mut r = AppRegistry::default();
    r.insert(app(":1.1", "org.a"));
    r.insert(app(":1.2", "org.b"));
    assert!(r.name_owner_changed(":1.1", true).is_none());
    assert_eq!(r.all().len(), 2);
    assert_eq!(r.name_owner_changed(":1.1", false).unwrap().app_id, "org.a");
    assert_eq!(r.by_owner(":1.2").unwrap().app_id, "org.b");

    let mut store = DynamicBindings::default();
    store.insert(mk("Ctrl+A", "app_global", ":1.1", ""));
    store.insert(mk("Ctrl+B", "app_global", ":1.2", ""));
    assert_eq!(store.name_owner_changed(":1.1", true), 0);
    assert_eq!(store.name_owner_changed(":1.1", false), 1);
    assert!(!store.contains_owner(":1.1"));
    assert!(store.contains_owner(":1.2"));
}

fn mk(binding: &str, scope: &str, owner: &str, app_id: &str) -> BindingInfo {
    BindingInfo {
        binding: binding.into(),
        action: format!("action_for_{binding}"),
        scope: scope.into(),
        owner: owner.into(),
        app_id: app_id.into(),
    }
}

#[test]
fn dynamic_bindings_insert_and_find() {
    let mut store = DynamicBindings::default();
    store.insert(mk("Ctrl+S", "app_focused", ":1.1", "org.editor"));
    store.insert(mk("Ctrl+P", "app_focused", ":1.1", "org.editor"));
    store.insert(mk("Ctrl+S", "app_focused", ":1.2", "org.terminal"));
    assert_eq!(store.all().len(), 3);
    let c = store.find_conflicts("Ctrl+S");
    assert_eq!(c.len(), 2);
}

#[test]
fn remove_owner_cleans_all() {
    let mut store = DynamicBindings::default();
    store.insert(mk("Ctrl+A", "app_global", ":1.10", ""));
    store.insert(mk("Ctrl+B", "app_global", ":1.10", ""));
    store.insert(mk("Ctrl+C", "app_focused", ":1.11", "org.x"));
    assert_eq!(store.remove_owner(":1.10"), 2);
    assert_eq!(store.all().len(), 1);
    assert!(!store.contains_owner(":1.10"));
}

#[test]
fn remove_single_binding() {
    let mut store = DynamicBindings::default();
    store.insert(mk("Ctrl+A", "app_focused", ":1.1", "org.x"));
    store.insert(mk("Ctrl+B", "app_focused", ":1.1", "org.x"));
    assert!(store.remove(":1.1", "Ctrl+A"));
    let remaining = store.all();
    assert_eq!(remaining.len(), 1);
    assert_eq!(remaining[0].binding, "Ctrl+B");
}

#[test]
fn remove_last_binding_drops_owner_entry() {
    let mut store = DynamicBindings::default();
    store.insert(mk("Ctrl+A", "app_focused", ":1.1", "org.x"));
    assert!(store.remove(":1.1", "Ctrl+A"));
    assert!(!store.contains_owner(":1.1"));
}

#[test]
fn registration_dominates_app_global_always_wins() {
    let existing = mk("Ctrl+X", "app_global", ":1.1", "");
    assert!(registration_dominates(&existing, "app_focused", "anything"));
    assert!(registration_dominates(&existing, "app_global", ""));
}

#[test]
fn registration_dominates_same_app_id() {
    let existing = mk("Ctrl+Y", "app_focused", ":1.1", "org.editor");
    assert!(registration_dominates(&existing, "app_focused", "org.editor"));
    assert!(!registration_dominates(&existing, "app_focused", "org.other"));
}

#[test]
fn registration_dominates_new_is_global() {
    let existing = mk("Ctrl+Z", "app_focused", ":1.1", "org.editor");
    assert!(registration_dominates(&existing, "app_global", ""));
}

#[test]
fn validate_scope_rejects_unknown() {
    assert!(validate_scope("app_focused").is_ok());
    assert!(validate_scope("app_global").is_ok());
    assert!(validate_scope("global").is_err());
    assert!(validate_scope("").is_err());
}

#[test]
fn validate_binding_rejects_empty_and_garbage() {
    assert!(validate_binding("").is_err());
    assert!(validate_binding("Ctrl+Shift+H").is_ok());
}

fn registry() -> AppRegistry {
    let mut r = AppRegistry::default();
    r.insert(app(":1.1", "org.editor"));
    r.insert(app_with_perms(":1.2", "org.global", vec!["register_global_bindings"]));
    r
}

fn register(
    store: &mut DynamicBindings,
    sender: Option<&str>,
    binding: &str,
    scope: &str,
    app_id: &str,
) -> Result<bool, BusError> {
    register_binding(
        store,
        &registry(),
        sender.map(String::from),
        binding.into(),
        "act".into(),
        scope.into(),
        app_id.into(),
    )
    .map(|r| {
        assert_eq!(r.success, r.conflict.is_empty());
        r.success
    })
}

#[test]
fn bindings_are_registered_once() {
    let mut store = DynamicBindings::default();
    assert_eq!(
        register(&mut store, Some(":1.1"), "Ctrl+S", "app_focused", "org.editor"),
        Ok(true)
    );
    assert_eq!(register(&mut store, Some(":1.2"), "Ctrl+S", "app_global", ""), Ok(false));
    assert_eq!(store.query_conflicts("Ctrl+S")[0].existing_owner, ":1.1");
    assert_eq!(register(&mut store, Some(":1.2"), "Ctrl+G", "app_global", ""), Ok(true));
    assert_eq!(store.query_bindings("").len(), 2);
    assert_eq!(store.query_bindings("app_global")[0].binding, "Ctrl+G");
    assert_eq!(unregister_binding(&mut store, Some(":1.1".into()), "Ctrl+X"), Ok(false));
    assert_eq!(unregister_binding(&mut store, Some(":1.1".into()), "Ctrl+S"), Ok(true));
    assert_eq!(unregister_binding(&mut store, None, "Ctrl+S"), Err(BusError::NoSender));
    assert_eq!(unregister_all(&mut store, None), Err(BusError::NoSender));
    assert_eq!(unregister_all(&mut store, Some(":1.2".into())), Ok(1));
    assert!(store.all().is_empty());
}

#[test]
fn bindings_are_refused_for_a_reason() {
    let mut store = DynamicBindings::default();
    let refused = vec![
        (
            register(&mut store, Some(":1.1"), "A", "global", ""),
            ErrorKind::InvalidArgs,
            "scope must be app_focused or app_global, got \"global\"",
        ),
        (
            register(&mut store, Some(":1.1"), "", "app_global", ""),
            ErrorKind::InvalidArgs,
            "binding must not be empty",
        ),
        (
            register(&mut store, None, "A", "app_global", ""),
            ErrorKind::Failed,
            "no sender on D-Bus message",
        ),
        (
            register(&mut store, Some(":1.1"), "A", "app_focused", ""),
            ErrorKind::InvalidArgs,
            "app_focused scope requires a non-empty app_id",
        ),
        (
            register(&mut store, Some(":1.1"), "A", "app_focused", "org.\"x\""),
            ErrorKind::AccessDenied,
            "app_id mismatch: caller registered as \"org.editor\" but claimed \"org.\\\"x\\\"\"",
        ),
        (
            register(&mut store, Some(":1.7"), "A", "app_focused", "org.x"),
            ErrorKind::AccessDenied,
            "app_focused scope requires RegisterApp on org.lunaris.App1 first",
        ),
        (
            register(&mut store, Some(":1.1"), "A", "app_global", ""),
            ErrorKind::AccessDenied,
            "app_global scope requires the 'register_global_bindings' permission; \
             \"org.editor\" registered without it",
        ),
        (
            register(&mut store, Some(":1.7"), "A", "app_global", ""),
            ErrorKind::AccessDenied,
            "app_global scope requires RegisterApp with 'register_global_bindings' permission first",
        ),
    ];
    for (result, kind, message) in refused {
        let e = result.unwrap_err();
        assert_eq!(e.kind(), kind);
        assert_eq!(e.message(), message);
    }
    assert!(store.all().is_empty());
    assert_eq!(BusError::EmptyAppId.kind(), ErrorKind::InvalidArgs);
    assert_eq!(BusError::EmptyAppId.message(), "app_id must not be empty");
}

#[test]
fn only_clients_with_a_name_are_told() {
    assert_eq!(emit_binding_invoked(true, ":1.42"), SignalOutcome::Send);
    assert_eq!(emit_binding_invoked(true, "org.example.App"), SignalOutcome::InvalidOwner);
    assert_eq!(emit_binding_invoked(true, ""), SignalOutcome::InvalidOwner);
    assert_eq!(emit_binding_invoked(true, "org.freedesktop.DBus"), SignalOutcome::Send);
    assert_eq!(emit_binding_invoked(true, ":a-b.c_0"), SignalOutcome::Send);
    assert_eq!(emit_binding_invoked(true, ":1"), SignalOutcome::InvalidOwner);
    assert_eq!(emit_binding_invoked(true, ":1..2"), SignalOutcome::InvalidOwner);
    assert_eq!(emit_binding_invoked(true, ":1.2."), SignalOutcome::InvalidOwner);
    assert_eq!(emit_binding_invoked(true, ":1.\u{e9}"), SignalOutcome::InvalidOwner);
    let longest = format!(":1.{}", "a".repeat(252));
    assert_eq!(emit_binding_invoked(true, &longest), SignalOutcome::Send);
    assert_eq!(emit_binding_invoked(true, &format!("{longest}a")), SignalOutcome::InvalidOwner);
    assert_eq!(emit_binding_invoked(false, ":1.42"), SignalOutcome::NotReady);
    assert_eq!(signal_outcome(true, false), SignalOutcome::InvalidOwner);
}

fn mods(super_k: bool, shift: bool, ctrl: bool, alt: bool) -> KeyBindingModifiers {
    KeyBindingModifiers { super_key: super_k, shift, ctrl, alt }
}

fn fresh() -> BindingResolver {
    BindingResolver::new(DynamicBindings::default())
}

#[test]
fn resolves_static_user_binding() {
    let mut r = fresh();
    r.set_static_bindings(vec![StaticBinding {
        modifiers: mods(true, false, false, false),
        key: "h".into(),
        action: "focus_left".into(),
        scope: BindingScope::User,
    }]);
    let got = r.resolve(&mods(true, false, false, false), "h").unwrap();
    assert_eq!(got.action, "focus_left");
    assert_eq!(got.scope, BindingScope::User);
    assert!(got.owner.is_none());
}

#[test]
fn resolves_case_insensitively_on_key() {
    let mut r = fresh();
    r.set_static_bindings(vec![StaticBinding {
        modifiers: mods(true, false, false, false),
        key: "H".into(),
        action: "focus_left".into(),
        scope: BindingScope::User,
    }]);
    assert!(r.resolve(&mods(true, false, false, false), "h").is_some());
    assert!(r.resolve(&mods(true, false, false, false), "H").is_some());
}

#[test]
fn static_wins_over_dynamic_for_same_binding() {
    let mut r = fresh();
    r.set_static_bindings(vec![StaticBinding {
        modifiers: mods(false, false, true, false),
        key: "s".into(),
        action: "user_save".into(),
        scope: BindingScope::User,
    }]);
    r.dynamic.insert(BindingInfo {
        binding: "Ctrl+S".into(),
        action: "editor:save".into(),
        scope: "app_global".into(),
        owner: ":1.42".into(),
        app_id: "".into(),
    });
    let got = r.resolve(&mods(false, false, true, false), "s").unwrap();
    assert_eq!(got.scope, BindingScope::User);
    assert_eq!(got.action, "user_save");
}

#[test]
fn system_wins_over_user() {
    let mut r = fresh();
    r.set_static_bindings(vec![
        StaticBinding {
            modifiers: mods(false, false, false, true),
            key: "F4".into(),
            action: "user_action".into(),
            scope: BindingScope::User,
        },
        StaticBinding {
            modifiers: mods(false, false, false, true),
            key: "F4".into(),
            action: "system_action".into(),
            scope: BindingScope::System,
        },
    ]);
    let got = r.resolve(&mods(false, false, false, true), "F4").unwrap();
    assert_eq!(got.scope, BindingScope::System);
    assert_eq!(got.action, "system_action");
}

#[test]
fn dynamic_app_global_fires_without_focus() {
    let mut r = fresh();
    r.dynamic.insert(BindingInfo {
        binding: "Super+G".into(),
        action: "screencap".into(),
        scope: "app_global".into(),
        owner: ":1.10".into(),
        app_id: "".into(),
    });
    let got = r.resolve(&mods(true, false, false, false), "g").unwrap();
    assert_eq!(got.scope, BindingScope::AppGlobal);
    assert_eq!(got.owner.as_deref(), Some(":1.10"));
}

#[test]
fn dynamic_app_focused_requires_matching_focus() {
    let mut r = fresh();
    r.dynamic.insert(BindingInfo {
        binding: "Ctrl+S".into(),
        action: "editor:save".into(),
        scope: "app_focused".into(),
        owner: ":1.20".into(),
        app_id: "org.example.Editor".into(),
    });
    assert!(r.resolve(&mods(false, false, true, false), "s").is_none());
    r.set_focused_app(Some("org.other.App".into()));
    assert!(r.resolve(&mods(false, false, true, false), "s").is_none());
    r.set_focused_app(Some("org.example.Editor".into()));
    let got = r.resolve(&mods(false, false, true, false), "s").unwrap();
    assert_eq!(got.scope, BindingScope::AppFocused);
}

#[test]
fn dynamic_app_global_preempts_app_focused() {
    let mut r = fresh();
    r.dynamic.insert(BindingInfo {
        binding: "Super+Shift+X".into(),
        action: "global:action".into(),
        scope: "app_global".into(),
        owner: ":1.30".into(),
        app_id: "".into(),
    });
    r.dynamic.insert(BindingInfo {
        binding: "Super+Shift+X".into(),
        action: "editor:action".into(),
        scope: "app_focused".into(),
        owner: ":1.31".into(),
        app_id: "org.editor".into(),
    });
    r.set_focused_app(Some("org.editor".into()));
    let got = r.resolve(&mods(true, true, false, false), "x").unwrap();
    assert_eq!(got.scope, BindingScope::AppGlobal);
    assert_eq!(got.action, "global:action");
}

#[test]
fn list_conflicts_reports_all_matches() {
    let mut r = fresh();
    r.set_static_bindings(vec![StaticBinding {
        modifiers: mods(true, false, false, false),
        key: "q".into(),
        action: "close_window".into(),
        scope: BindingScope::User,
    }]);
    r.dynamic.insert(BindingInfo {
        binding: "Super+Q".into(),
        action: "editor:quit".into(),
        scope: "app_global".into(),
        owner: ":1.50".into(),
        app_id: "".into(),
    });
    let c = r.list_conflicts(&mods(true, false, false, false), "q");
    assert_eq!(c.len(), 2);
    assert!(c.iter().any(|r| r.scope == BindingScope::User));
    assert!(c.iter().any(|r| r.scope == BindingScope::AppGlobal));
}

#[test]
fn from_accelerator_parses_and_assigns_scope() {
    let b = StaticBinding::from_accelerator(
        "Super+Shift+Space",
        "toggle_floating".into(),
        BindingScope::User,
    )
    .unwrap();
    assert!(b.modifiers.super_key && b.modifiers.shift);
    assert_eq!(b.action, "toggle_floating");
    assert_eq!(b.key, "Space");
    let bare =
        StaticBinding::from_accelerator("Minus", "scratchpad".into(), BindingScope::User).unwrap();
    assert_eq!(bare.modifiers, mods(false, false, false, false));
    assert_eq!(bare.key, "Minus");
}

#[test]
fn no_match_when_modifiers_differ() {
    let mut r = fresh();
    r.set_static_bindings(vec![StaticBinding {
        modifiers: mods(true, false, false, false),
        key: "h".into(),
        action: "focus_left".into(),
        scope: BindingScope::User,
    }]);
    assert!(r.resolve(&mods(false, false, false, false), "h").is_none());
    assert!(r.resolve(&mods(true, true, false, false), "h").is_none());
}

#[test]
fn focused_app_id_round_trip() {
    let mut r = fresh();
    assert!(r.focused_app_id().is_none());
    r.set_focused_app(Some("com.example".into()));
    assert_eq!(r.focused_app_id(), Some("com.example".into()));
    r.set_focused_app(None);
    assert!(r.focused_app_id().is_none());
}

#[test]
fn modules_come_after_the_user() {
    let module = FragmentEntry {
        module_id: "m".into(),
        binding: "Super+A".into(),
        action: "module:m:a".into(),
    };
    let statics = static_bindings(&vec![bind("Super+A", "own")], &vec![module]);
    let scopes: Vec<BindingScope> = statics.iter().map(|b| b.scope).collect();
    assert_eq!(scopes, vec![BindingScope::User, BindingScope::Module]);
    let mut r = fresh();
    r.set_static_bindings(statics);
    assert_eq!(r.resolve(&mods(true, false, false, false), "a").unwrap().action, "own");
    assert_eq!(r.list_conflicts(&mods(true, false, false, false), "a").len(), 2);
}

fn looks_like_an_id(s: &str) -> bool {
    let b = s.as_bytes();
    b.len() == 36
        && b.iter().enumerate().all(|(i, c)| match i {
            8 | 13 | 18 | 23 => *c == b'-',
            14 => *c == b'7',
            19 => b"89ab".contains(c),
            _ => b"0123456789abcdef".contains(c),
        })
}

#[test]
fn the_focus_is_reported_once() {
    let stamp = Stamp { timestamp: 17, pid: 4 };
    let mut bus = EventBusHandle::new("session".into());
    let event = bus.emit_window_focused("org.a", "Notes", stamp).unwrap();
    assert_eq!(event.kind, "window.focused");
    assert_eq!(event.source, "wayland");
    assert_eq!((event.timestamp, event.pid), (17, 4));
    assert_eq!(event.session_id, "session");
    assert_eq!(event.payload, b"\x0a\x05org.a\x12\x05Notes");
    assert!(looks_like_an_id(&event.id), "{}", event.id);
    assert!(bus.emit_window_focused("org.a", "Other", stamp).is_none());
    assert!(bus.emit_window_focused("org.b", "", stamp).is_some());
    assert!(!bus.note_focus("org.b"));
}

#[test]
fn events_have_their_kinds() {
    let stamp = Stamp { timestamp: 0, pid: 1 };
    let bus = EventBusHandle::new("s".into());
    assert_eq!(bus.emit_window_opened("a", "t", stamp).kind, "window.opened");
    assert_eq!(bus.emit_window_closed("a", stamp).kind, "window.closed");
    let copied = bus.emit_clipboard_copy("text/plain", stamp);
    assert_eq!(copied.kind, "clipboard.copy");
    assert!(copied.payload.is_empty());
    let event = bus.emit_module_action("com.example", "open", stamp);
    assert_eq!(event.kind, "module.action_invoked.com.example");
    assert_eq!(event.source, "open");
    assert!(event.payload.is_empty());
    assert_ne!(bus.emit_window_opened("a", "t", stamp).id, event.id);
    assert_eq!(session_id(Some("x".into())), "x");
    assert!(looks_like_an_id(&session_id(None)));
    assert_eq!(socket_path(None), "/run/lunaris/event-bus-producer.sock");
    assert_eq!(socket_path(Some("/tmp/s".into())), "/tmp/s");
}

#[test]
fn events_tell_of_windows() {
    let stamp = Stamp { timestamp: 0, pid: 1 };
    let bus = EventBusHandle::new("s".into());
    assert_eq!(bus.emit_window_opened("org.a", "", stamp).payload, b"\x0a\x05org.a");
    assert_eq!(bus.emit_window_opened("", "\u{e9}", stamp).payload, b"\x12\x02\xc3\xa9");
    assert_eq!(bus.emit_window_closed("org.a", stamp).payload, b"\x0a\x05org.a");
    let title = "x".repeat(300);
    let long = bus.emit_window_opened("a", &title, stamp).payload;
    assert_eq!(long[..6], *b"\x0a\x01a\x12\xac\x02");
    assert_eq!(long[6..], *title.as_bytes());
}

#[test]
fn messages_start_with_their_length() {
    let bytes: Vec<u8> = (0..300).map(|i| i as u8).collect();
    let message = encode(&bytes).unwrap().0;
    assert_eq!(message[..4], [0, 0, 1, 44]);
    assert_eq!(message[4..], bytes[..]);
    assert_eq!(encode(&vec![]).unwrap().0, vec![0, 0, 0, 0]);
}

#[test]
fn the_sender_connects_again() {
    assert_eq!(next_action(SenderEvent::ConnectFailed), SenderAction::WaitAndConnect);
    assert_eq!(next_action(SenderEvent::Connected), SenderAction::Send);
    assert_eq!(next_action(SenderEvent::Sent), SenderAction::Send);
    assert_eq!(next_action(SenderEvent::WriteFailed), SenderAction::Connect);
    assert_eq!(next_action(SenderEvent::Closed), SenderAction::Stop);
}

#[test]
fn logging_follows_the_environment() {
    assert_eq!(default_level(true), "info");
    assert_eq!(default_level(false), "warn");
    assert_eq!(log_directives(true, false), log_directives(true, true));
    assert_eq!(
        log_directives(false, true),
        vec!["cosmic_text=error", "calloop=error", "smithay=debug", "cosmic_comp=debug"]
    );
}
