//! Which applications are registered, and which bindings they may have.

use crate::dbus::app_interface;
use crate::dbus::app_interface::AppModel;
use crate::dbus::error;
use crate::dbus::input_manager;
use crate::dbus::input_manager::BindingInfo;
use crate::seqs;
use crate::text;
use vstd::prelude::*;

verus! {

/// The application of a client is the first that it has registered.
pub proof fn clients_have_their_first_application(apps: Seq<AppModel>, owner: Seq<char>, k: int)
    ensures
        0 <= k < apps.len() && apps[k].owner == owner && (forall|i: int|
            0 <= i < k ==> (#[trigger] apps[i]).owner != owner) ==> app_interface::app_of(
            apps,
            owner,
        ) == Some(apps[k]) && app_interface::owner_position(apps, owner) == Some(k),
        (forall|i: int| 0 <= i < apps.len() ==> (#[trigger] apps[i]).owner != owner)
            ==> app_interface::app_of(apps, owner) is None && app_interface::owner_position(
            apps,
            owner,
        ) is None,
    decreases apps.len(),
{
    if apps.len() > 0 && apps[0].owner != owner {
        let rest = apps.skip(1);
        assert forall|i: int| 0 <= i < rest.len() implies #[trigger] rest[i] == apps[i + 1] by {}
        clients_have_their_first_application(rest, owner, k - 1);
    }
}

/// An application is known by its identifier, the first one with it.
pub proof fn applications_are_known_by_their_identifiers(
    apps: Seq<AppModel>,
    app_id: Seq<char>,
    k: int,
)
    ensures
        0 <= k < apps.len() && apps[k].app_id == app_id && (forall|i: int|
            0 <= i < k ==> (#[trigger] apps[i]).app_id != app_id) ==> app_interface::app_named(
            apps,
            app_id,
        ) == Some(apps[k]),
        (forall|i: int| 0 <= i < apps.len() ==> (#[trigger] apps[i]).app_id != app_id)
            ==> app_interface::app_named(apps, app_id) is None,
    decreases apps.len(),
{
    if apps.len() > 0 && apps[0].app_id != app_id {
        let rest = apps.skip(1);
        assert forall|i: int| 0 <= i < rest.len() implies #[trigger] rest[i] == apps[i + 1] by {}
        applications_are_known_by_their_identifiers(rest, app_id, k - 1);
    }
}

/// An application is registered behind the others, or in the place of the one that its client
/// had; dropping one leaves the others in their order.
pub proof fn registering_keeps_the_order(
    apps: Seq<AppModel>,
    app: AppModel,
    owner: Seq<char>,
    k: int,
)
    ensures
        (forall|i: int| 0 <= i < apps.len() ==> (#[trigger] apps[i]).owner != app.owner)
            ==> app_interface::registered(apps, app) == apps.push(app),
        0 <= k < apps.len() && apps[k].owner == app.owner && (forall|i: int|
            0 <= i < k ==> (#[trigger] apps[i]).owner != app.owner) ==> app_interface::registered(
            apps,
            app,
        ) == apps.update(k, app),
        (forall|i: int| 0 <= i < apps.len() ==> (#[trigger] apps[i]).owner != owner)
            ==> app_interface::unregistered(apps, owner) == apps,
        0 <= k < apps.len() && apps[k].owner == owner && (forall|i: int|
            0 <= i < k ==> (#[trigger] apps[i]).owner != owner) ==> app_interface::unregistered(
            apps,
            owner,
        ) == apps.take(k) + apps.skip(k + 1),
{
    clients_have_their_first_application(apps, app.owner, k);
    clients_have_their_first_application(apps, owner, k);
    if 0 <= k < apps.len() {
        assert(apps.remove(k) =~= apps.take(k) + apps.skip(k + 1));
    }
}

/// An application may have global bindings where it has the permission for them by its name.
pub proof fn global_bindings_need_their_permission(app: AppModel)
    ensures
        app.may_bind_globally() <==> exists|i: int|
            0 <= i < app.permissions.len() && #[trigger] app.permissions[i]
                == "register_global_bindings"@,
{
}

/// A request is refused for the first of these that holds: a scope that is not known, an empty
/// accelerator, no sender; for a focused binding no application, none registered, or another; for
/// a global one none registered, or no permission. Else it is not.
pub proof fn requests_are_refused_in_this_order(
    apps: Seq<AppModel>,
    sender: Option<Seq<char>>,
    binding: Seq<char>,
    scope: Seq<char>,
    app_id: Seq<char>,
    app: AppModel,
)
    ensures
        ({
            let refused = input_manager::denial(apps, sender, binding, scope, app_id);
            let known = scope == "app_focused"@ || scope == "app_global"@;
            let found = sender is Some && app_interface::app_of(apps, sender->0) == Some(app);
            let unknown = sender is Some && app_interface::app_of(apps, sender->0) is None;
            let fine = known && binding.len() > 0;
            &&& !known ==> refused == Some(error::ErrorModel::UnknownScope { scope })
            &&& known && binding.len() == 0 ==> refused == Some(error::ErrorModel::EmptyBinding)
            &&& fine && sender is None ==> refused == Some(error::ErrorModel::NoSender)
            &&& fine && sender is Some && scope == "app_focused"@ && app_id.len() == 0 ==> refused
                == Some(error::ErrorModel::FocusedWithoutAppId)
            &&& fine && unknown && scope == "app_focused"@ && app_id.len() > 0 ==> refused == Some(
                error::ErrorModel::FocusedUnregistered,
            )
            &&& fine && found && scope == "app_focused"@ && app_id.len() > 0 && app.app_id
                != app_id ==> refused == Some(
                error::ErrorModel::AppIdMismatch { registered: app.app_id, claimed: app_id },
            )
            &&& fine && found && scope == "app_focused"@ && app_id.len() > 0 && app.app_id
                == app_id ==> refused is None
            &&& fine && unknown && scope == "app_global"@ ==> refused == Some(
                error::ErrorModel::GlobalUnregistered,
            )
            &&& fine && found && scope == "app_global"@ && !app.may_bind_globally() ==> refused
                == Some(error::ErrorModel::GlobalNotPermitted { app_id: app.app_id })
            &&& fine && found && scope == "app_global"@ && app.may_bind_globally() ==> refused
                is None
        }),
{
    reveal_strlit("app_focused");
    reveal_strlit("app_global");
    assert("app_focused"@.len() == 11 && "app_global"@.len() == 10);
}

/// Two registrations of an accelerator are in each other's way where one of them is global or
/// both are for the same application; those of different applications are not.
pub proof fn focused_bindings_of_different_applications_coexist(
    a: Seq<char>,
    b: Seq<char>,
    scope: Seq<char>,
)
    ensures
        input_manager::dominates("app_global"@, a, scope, b),
        input_manager::dominates(scope, a, "app_global"@, b),
        input_manager::dominates(scope, a, scope, a),
        a != b ==> !input_manager::dominates("app_focused"@, a, "app_focused"@, b),
{
    reveal_strlit("app_focused");
    reveal_strlit("app_global");
    assert("app_focused"@.len() == 11 && "app_global"@.len() == 10);
}

/// What is in the way of a registration is each binding with the same accelerator that is, and no
/// other.
pub proof fn every_obstacle_is_found(
    entries: Seq<BindingInfo>,
    binding: Seq<char>,
    scope: Seq<char>,
    app_id: Seq<char>,
    e: BindingInfo,
)
    ensures
        entries.filter(input_manager::in_the_way(binding, scope, app_id)).contains(e)
            <==> entries.contains(e) && e.binding@ == binding && (e.scope@ == "app_global"@ || scope
            == "app_global"@ || e.app_id@ == app_id),
        entries.filter(input_manager::uses(binding)).contains(e) <==> entries.contains(e)
            && e.binding@ == binding,
        entries.filter(input_manager::in_scope(scope)).contains(e) <==> entries.contains(e)
            && e.scope@ == scope,
{
    seqs::lemma_filter_contains(entries, input_manager::in_the_way(binding, scope, app_id));
    seqs::lemma_filter_contains(entries, input_manager::uses(binding));
    seqs::lemma_filter_contains(entries, input_manager::in_scope(scope));
}

/// Taking a binding back takes back those of the client with the accelerator, and taking all back
/// those of the client.
pub proof fn bindings_are_taken_back(
    entries: Seq<BindingInfo>,
    owner: Seq<char>,
    binding: Seq<char>,
    e: BindingInfo,
)
    ensures
        entries.filter(input_manager::survives(owner, binding)).contains(e) <==> entries.contains(e)
            && (e.owner@ != owner || e.binding@ != binding),
        entries.filter(input_manager::not_of(owner)).contains(e) <==> entries.contains(e)
            && e.owner@ != owner,
{
    seqs::lemma_filter_contains(entries, input_manager::survives(owner, binding));
    seqs::lemma_filter_contains(entries, input_manager::not_of(owner));
}

/// A conflict names the accelerator, and the action, the scope and the client of the binding in
/// the way; there is one for each, in their order.
pub proof fn conflicts_name_what_is_in_the_way(
    entries: Seq<BindingInfo>,
    binding: Seq<char>,
    i: int,
)
    requires
        0 <= i < entries.len(),
    ensures
        ({
            let all = input_manager::conflicts_from(entries, binding);
            &&& all.len() == entries.len()
            &&& all[i].binding == binding
            &&& all[i].existing_action == entries[i].action@
            &&& all[i].existing_scope == entries[i].scope@
            &&& all[i].existing_owner == entries[i].owner@
        }),
{
}

/// The unique name of a client starts with a colon and has at least one dot behind it; what is
/// empty, too long or has another character is none.
pub proof fn unique_names_start_with_a_colon(name: Seq<char>)
    requires
        name != "org.freedesktop.DBus"@,
    ensures
        name.len() == 0 || name.len() > 255 ==> !input_manager::is_unique_name(name),
        name.len() > 0 && name[0] != ':' ==> !input_manager::is_unique_name(name),
        name.len() > 0 && !name.skip(1).contains('.') ==> !input_manager::is_unique_name(name),
        name.len() > 1 && name[1] == '.' ==> !input_manager::is_unique_name(name),
{
    if name.len() > 0 {
        let rest = name.skip(1);
        let elements = text::split_on(rest, '.');
        if !rest.contains('.') {
            assert forall|i: int| 0 <= i < rest.len() implies rest[i] != '.' by {
                assert(rest.contains(rest[i]));
            }
            text::lemma_first_of_unique(rest, '.', rest.len() as int);
            assert(elements =~= seq![rest]);
        }
        if name.len() > 1 && name[1] == '.' {
            assert(rest[0] == '.');
            text::lemma_first_of_unique(rest, '.', 0);
            assert(elements[0] =~= rest.take(0));
            assert(elements[0].len() == 0);
        }
    }
}

/// A colon and two groups of letters, digits, underscores and hyphens with a dot between them are
/// the unique name of a client, and another character in one of them makes it none.
pub proof fn two_groups_make_a_unique_name(a: Seq<char>, b: Seq<char>, i: int)
    requires
        a.len() > 0 && b.len() > 0,
        a.len() + b.len() <= 253,
        !a.contains('.') && !b.contains('.'),
    ensures
        ({
            let name = seq![':'] + a.push('.') + b;
            let allowed = |c: char|
                ('a' <= c <= 'z') || ('A' <= c <= 'Z') || ('0' <= c <= '9') || c == '_' || c == '-';
            &&& (forall|j: int| 0 <= j < a.len() ==> allowed(#[trigger] a[j])) && (forall|j: int|
                0 <= j < b.len() ==> allowed(#[trigger] b[j])) ==> input_manager::is_unique_name(
                name,
            )
            &&& 0 <= i < a.len() && !allowed(a[i]) ==> !input_manager::is_unique_name(name)
            &&& 0 <= i < b.len() && !allowed(b[i]) ==> !input_manager::is_unique_name(name)
        }),
{
    reveal_strlit("org.freedesktop.DBus");
    let name = seq![':'] + a.push('.') + b;
    let rest = name.skip(1);
    assert(rest =~= a.push('.') + b);
    assert(name[0] == ':' && "org.freedesktop.DBus"@[0] == 'o');
    let n = a.len() as int;
    assert forall|j: int| 0 <= j < n implies rest[j] != '.' by {
        assert(rest[j] == a[j]);
        assert(a.contains(a[j]));
    }
    assert(rest[n] == '.');
    text::lemma_first_of_unique(rest, '.', n);
    assert(rest.take(n) =~= a);
    assert(rest.skip(n + 1) =~= b);
    assert forall|j: int| 0 <= j < b.len() implies b[j] != '.' by {
        assert(b.contains(b[j]));
    }
    text::lemma_first_of_unique(b, '.', b.len() as int);
    assert(text::split_on(b, '.') =~= seq![b]);
    let elements = text::split_on(rest, '.');
    assert(elements =~= seq![a, b]);
    assert(elements[0] == a && elements[1] == b);
}

} // verus!
