//! Applications that have registered over the bus.

use crate::dbus::error;
use crate::dbus::error::BusError;
use crate::text;
use crate::text::{clone_list, list_contains, str_eq};
use vstd::prelude::*;

verus! {

/// An action that an application can be asked to perform.
#[derive(Debug, PartialEq, Eq)]
pub struct DeclaredAction {
    pub id: String,
    pub label: String,
    /// A longer explanation; empty where there is none.
    pub description: String,
}

impl Clone for DeclaredAction {
    fn clone(&self) -> (r: DeclaredAction)
        ensures
            r == *self,
    {
        DeclaredAction {
            id: self.id.clone(),
            label: self.label.clone(),
            description: self.description.clone(),
        }
    }
}

/// An application that has registered.
#[derive(Debug, PartialEq, Eq)]
pub struct AppInfo {
    pub app_id: String,
    pub name: String,
    /// The unique name of the client on the bus.
    pub owner: String,
    pub declared_actions: Vec<DeclaredAction>,
    /// The permissions that the client has declared, unknown ones too.
    pub permissions: Vec<String>,
}

/// The model of an application.
#[verifier::ext_equal]
pub struct AppModel {
    pub app_id: Seq<char>,
    pub name: Seq<char>,
    pub owner: Seq<char>,
    pub declared_actions: Seq<DeclaredAction>,
    pub permissions: Seq<Seq<char>>,
}

impl View for AppInfo {
    type V = AppModel;

    open spec fn view(&self) -> AppModel {
        AppModel {
            app_id: self.app_id@,
            name: self.name@,
            owner: self.owner@,
            declared_actions: self.declared_actions@,
            permissions: text::list_view(self.permissions@),
        }
    }
}

impl Clone for AppInfo {
    fn clone(&self) -> (r: AppInfo)
        ensures
            r@ == self@,
    {
        let mut actions: Vec<DeclaredAction> = Vec::new();
        let mut i: usize = 0;
        while i < self.declared_actions.len()
            invariant
                i <= self.declared_actions@.len(),
                actions@ == self.declared_actions@.take(i as int),
            decreases self.declared_actions@.len() - i,
        {
            actions.push(self.declared_actions[i].clone());
            i += 1;
        }
        assert(self.declared_actions@.take(i as int) =~= self.declared_actions@);
        AppInfo {
            app_id: self.app_id.clone(),
            name: self.name.clone(),
            owner: self.owner.clone(),
            declared_actions: actions,
            permissions: clone_list(&self.permissions),
        }
    }
}

impl AppModel {
    /// Whether the application may register bindings that fire whatever has the focus.
    pub open spec fn may_bind_globally(self) -> bool {
        self.permissions.contains("register_global_bindings"@)
    }
}

impl AppInfo {
    /// Whether the application may register bindings that fire whatever has the focus.
    pub fn can_register_global_bindings(&self) -> (r: bool)
        ensures
            r == self@.may_bind_globally(),
    {
        list_contains(&self.permissions, "register_global_bindings")
    }
}

/// The applications that have registered, one for each client.
#[derive(Debug, PartialEq, Eq)]
pub struct AppRegistry {
    apps: Vec<AppInfo>,
}

/// The models of a list of applications.
pub open spec fn app_models(apps: Seq<AppInfo>) -> Seq<AppModel> {
    apps.map_values(|a: AppInfo| a@)
}

/// Whether every client has registered once.
pub open spec fn distinct_owners(apps: Seq<AppModel>) -> bool {
    forall|i: int, j: int|
        0 <= i < apps.len() && 0 <= j < apps.len() && i != j ==> (#[trigger] apps[i]).owner != (
        #[trigger] apps[j]).owner
}

/// The first position of an application of the given client.
pub open spec fn owner_position(apps: Seq<AppModel>, owner: Seq<char>) -> Option<int>
    decreases apps.len(),
{
    if apps.len() == 0 {
        None
    } else if apps[0].owner == owner {
        Some(0)
    } else {
        match owner_position(apps.skip(1), owner) {
            Some(i) => Some(i + 1),
            None => None,
        }
    }
}

/// The defining property of `owner_position`.
pub proof fn lemma_owner_position(apps: Seq<AppModel>, owner: Seq<char>)
    ensures
        match owner_position(apps, owner) {
            Some(i) => 0 <= i < apps.len() && apps[i].owner == owner,
            None => forall|i: int| 0 <= i < apps.len() ==> (#[trigger] apps[i]).owner != owner,
        },
    decreases apps.len(),
{
    if apps.len() > 0 && apps[0].owner != owner {
        lemma_owner_position(apps.skip(1), owner);
        if owner_position(apps.skip(1), owner) is None {
            assert forall|i: int| 0 <= i < apps.len() implies (#[trigger] apps[i]).owner
                != owner by {
                if i > 0 {
                    assert(apps.skip(1)[i - 1] == apps[i]);
                }
            }
        }
    }
}

/// The application of a client.
pub open spec fn app_of(apps: Seq<AppModel>, owner: Seq<char>) -> Option<AppModel> {
    match owner_position(apps, owner) {
        Some(i) => Some(apps[i]),
        None => None,
    }
}

/// The registry after an application has been registered: it takes the place of an earlier one
/// of the same client.
pub open spec fn registered(apps: Seq<AppModel>, app: AppModel) -> Seq<AppModel> {
    match owner_position(apps, app.owner) {
        Some(i) => apps.update(i, app),
        None => apps.push(app),
    }
}

/// The registry after the application of a client has been dropped.
pub open spec fn unregistered(apps: Seq<AppModel>, owner: Seq<char>) -> Seq<AppModel> {
    match owner_position(apps, owner) {
        Some(i) => apps.remove(i),
        None => apps,
    }
}

/// The first application with the given identifier.
pub open spec fn app_named(apps: Seq<AppModel>, app_id: Seq<char>) -> Option<AppModel>
    decreases apps.len(),
{
    if apps.len() == 0 {
        None
    } else if apps[0].app_id == app_id {
        Some(apps[0])
    } else {
        app_named(apps.skip(1), app_id)
    }
}

impl View for AppRegistry {
    type V = Seq<AppModel>;

    closed spec fn view(&self) -> Seq<AppModel> {
        app_models(self.apps@)
    }
}

impl Default for AppRegistry {
    fn default() -> (r: AppRegistry)
        ensures
            r@ == Seq::<AppModel>::empty(),
    {
        let r = AppRegistry { apps: Vec::new() };
        assert(r@ =~= Seq::<AppModel>::empty());
        r
    }
}

impl AppRegistry {
    #[verifier::type_invariant]
    spec fn inv(self) -> bool {
        distinct_owners(app_models(self.apps@))
    }

    /// The position of the application of a client.
    fn position(&self, owner: &str) -> (r: Option<usize>)
        ensures
            match r {
                Some(i) => owner_position(self@, owner@) == Some(i as int) && i < self@.len(),
                None => owner_position(self@, owner@) is None,
            },
    {
        let mut i: usize = 0;
        proof {
            assert(self@.skip(0) =~= self@);
        }
        while i < self.apps.len()
            invariant
                i <= self.apps@.len(),
                match owner_position(self@.skip(i as int), owner@) {
                    Some(j) => owner_position(self@, owner@) == Some(i + j),
                    None => owner_position(self@, owner@) is None,
                },
            decreases self.apps@.len() - i,
        {
            proof {
                assert(self@.skip(i as int)[0] == self.apps@[i as int]@);
                assert(self@.skip(i as int).skip(1) =~= self@.skip(i + 1));
            }
            if str_eq(self.apps[i].owner.as_str(), owner) {
                return Some(i);
            }
            i += 1;
        }
        None
    }

    /// Registers an application, in place of an earlier one of the same client.
    pub fn insert(&mut self, info: AppInfo)
        ensures
            final(self)@ == registered(old(self)@, info@),
    {
        proof {
            use_type_invariant(&*self);
            lemma_owner_position(self@, info@.owner);
        }
        let position: Option<usize> = self.position(info.owner.as_str());
        let ghost before = self@;
        let mut apps: Vec<AppInfo> = Vec::new();
        std::mem::swap(&mut apps, &mut self.apps);
        match position {
            Some(i) => {
                apps.set(i, info);
                assert(app_models(apps@) =~= before.update(i as int, info@));
            },
            None => {
                apps.push(info);
                assert(app_models(apps@) =~= before.push(info@));
            },
        }
        self.apps = apps;
    }

    /// The application of a client.
    pub fn by_owner(&self, owner: &str) -> (r: Option<&AppInfo>)
        ensures
            match r {
                Some(info) => app_of(self@, owner@) == Some(info@),
                None => app_of(self@, owner@) is None,
            },
    {
        match self.position(owner) {
            Some(i) => {
                assert(self@[i as int] == self.apps@[i as int]@);
                Some(&self.apps[i])
            },
            None => None,
        }
    }

    /// The first application with the given identifier.
    pub fn by_app_id(&self, app_id: &str) -> (r: Option<&AppInfo>)
        ensures
            match r {
                Some(info) => app_named(self@, app_id@) == Some(info@),
                None => app_named(self@, app_id@) is None,
            },
    {
        let mut i: usize = 0;
        proof {
            assert(self@.skip(0) =~= self@);
        }
        while i < self.apps.len()
            invariant
                i <= self.apps@.len(),
                app_named(self@, app_id@) == app_named(self@.skip(i as int), app_id@),
            decreases self.apps@.len() - i,
        {
            proof {
                assert(self@.skip(i as int)[0] == self.apps@[i as int]@);
                assert(self@.skip(i as int).skip(1) =~= self@.skip(i + 1));
            }
            if str_eq(self.apps[i].app_id.as_str(), app_id) {
                return Some(&self.apps[i]);
            }
            i += 1;
        }
        None
    }

    /// Drops the application of a client and hands it out.
    pub fn remove_owner(&mut self, owner: &str) -> (r: Option<AppInfo>)
        ensures
            final(self)@ == unregistered(old(self)@, owner@),
            match r {
                Some(info) => app_of(old(self)@, owner@) == Some(info@),
                None => app_of(old(self)@, owner@) is None,
            },
    {
        proof {
            use_type_invariant(&*self);
        }
        match self.position(owner) {
            Some(i) => {
                let ghost before = self@;
                let mut apps: Vec<AppInfo> = Vec::new();
                std::mem::swap(&mut apps, &mut self.apps);
                let ghost listed = apps@;
                let info: AppInfo = apps.remove(i);
                proof {
                    assert(before[i as int] == listed[i as int]@);
                    assert(app_models(apps@) =~= before.remove(i as int));
                    assert forall|a: int, b: int|
                        0 <= a < apps@.len() && 0 <= b < apps@.len() && a != b implies (
                    #[trigger] app_models(apps@)[a]).owner != (#[trigger] app_models(
                        apps@,
                    )[b]).owner by {
                        let a1 = if a < i {
                            a
                        } else {
                            a + 1
                        };
                        let b1 = if b < i {
                            b
                        } else {
                            b + 1
                        };
                        assert(before[a1].owner != before[b1].owner);
                    }
                }
                self.apps = apps;
                Some(info)
            },
            None => None,
        }
    }

    /// All applications, one for each client.
    pub fn all(&self) -> (r: Vec<AppInfo>)
        ensures
            app_models(r@) == self@,
            distinct_owners(self@),
    {
        proof {
            use_type_invariant(self);
        }
        let mut out: Vec<AppInfo> = Vec::new();
        let mut i: usize = 0;
        while i < self.apps.len()
            invariant
                i <= self.apps@.len(),
                app_models(out@) =~= self@.take(i as int),
            decreases self.apps@.len() - i,
        {
            let copy: AppInfo = self.apps[i].clone();
            let ghost before = out@;
            out.push(copy);
            proof {
                assert(app_models(out@) =~= app_models(before).push(copy@));
                assert(self@[i as int] == self.apps@[i as int]@);
            }
            i += 1;
        }
        assert(self@.take(i as int) =~= self@);
        out
    }

    /// The identifiers and names of all applications.
    pub fn list_apps(&self) -> (r: Vec<(String, String)>)
        ensures
            r@.len() == self@.len(),
            forall|i: int|
                0 <= i < r@.len() ==> (#[trigger] r@[i]).0@ == self@[i].app_id && r@[i].1@
                    == self@[i].name,
    {
        let mut out: Vec<(String, String)> = Vec::new();
        let mut i: usize = 0;
        while i < self.apps.len()
            invariant
                i <= self.apps@.len(),
                self@.len() == self.apps@.len(),
                out@.len() == i,
                forall|j: int|
                    0 <= j < i ==> (#[trigger] out@[j]).0@ == self@[j].app_id && out@[j].1@
                        == self@[j].name,
            decreases self.apps@.len() - i,
        {
            assert(self@[i as int] == self.apps@[i as int]@);
            out.push((self.apps[i].app_id.clone(), self.apps[i].name.clone()));
            i += 1;
        }
        out
    }

    /// Whether no application has registered.
    pub fn is_empty(&self) -> (r: bool)
        ensures
            r == (self@.len() == 0),
    {
        self.apps.len() == 0
    }

    /// Registers the application of the sender of a message.
    pub fn register_app(
        &mut self,
        sender: Option<String>,
        app_id: String,
        name: String,
        actions: Vec<DeclaredAction>,
        permissions: Vec<String>,
    ) -> (r: Result<bool, BusError>)
        ensures
            match r {
                Ok(done) => {
                    &&& done
                    &&& app_id@.len() > 0
                    &&& sender is Some
                    &&& final(self)@ == registered(
                        old(self)@,
                        AppModel {
                            app_id: app_id@,
                            name: name@,
                            owner: sender->0@,
                            declared_actions: actions@,
                            permissions: text::list_view(permissions@),
                        },
                    )
                },
                Err(e) => {
                    &&& final(self)@ == old(self)@
                    &&& e@ == if app_id@.len() == 0 {
                        error::ErrorModel::EmptyAppId
                    } else {
                        error::ErrorModel::NoSender
                    }
                    &&& app_id@.len() == 0 || sender is None
                },
            },
    {
        if app_id.as_str().is_empty() {
            return Err(BusError::EmptyAppId);
        }
        match sender {
            Some(owner) => {
                self.insert(
                    AppInfo { app_id, name, owner, declared_actions: actions, permissions },
                );
                Ok(true)
            },
            None => Err(BusError::NoSender),
        }
    }

    /// Drops the application of the sender of a message; returns whether there was one.
    pub fn unregister_app(&mut self, sender: Option<String>) -> (r: Result<bool, BusError>)
        ensures
            match (r, sender) {
                (Ok(removed), Some(owner)) => {
                    &&& final(self)@ == unregistered(old(self)@, owner@)
                    &&& removed == app_of(old(self)@, owner@) is Some
                },
                (Err(e), None) => e@ == error::ErrorModel::NoSender && final(self)@ == old(self)@,
                _ => false,
            },
    {
        match sender {
            Some(owner) => Ok(self.remove_owner(owner.as_str()).is_some()),
            None => Err(BusError::NoSender),
        }
    }

    /// The identifier of the application of a client; empty where it has none.
    pub fn get_app_id(&self, owner: &str) -> (r: String)
        ensures
            r@ == match app_of(self@, owner@) {
                Some(app) => app.app_id,
                None => Seq::<char>::empty(),
            },
    {
        match self.by_owner(owner) {
            Some(info) => info.app_id.clone(),
            None => String::new(),
        }
    }

    /// A name on the bus has changed hands: where nobody holds it any more, the application of
    /// the client is dropped.
    pub fn name_owner_changed(&mut self, name: &str, has_new_owner: bool) -> (r: Option<AppInfo>)
        ensures
            has_new_owner ==> final(self)@ == old(self)@ && r is None,
            !has_new_owner ==> {
                &&& final(self)@ == unregistered(old(self)@, name@)
                &&& match r {
                    Some(info) => app_of(old(self)@, name@) == Some(info@),
                    None => app_of(old(self)@, name@) is None,
                }
            },
    {
        if has_new_owner {
            None
        } else {
            self.remove_owner(name)
        }
    }
}

/// What is registered for a client is found, and nothing else changes.
pub proof fn registered_app_is_found(apps: Seq<AppModel>, app: AppModel, other: Seq<char>)
    requires
        distinct_owners(apps),
        other != app.owner,
    ensures
        app_of(registered(apps, app), app.owner) == Some(app),
        app_of(registered(apps, app), other) == app_of(apps, other),
        distinct_owners(registered(apps, app)),
{
    lemma_owner_position(apps, app.owner);
    lemma_owner_position(apps, other);
    let after = registered(apps, app);
    lemma_owner_position(after, app.owner);
    lemma_owner_position(after, other);
    match owner_position(apps, app.owner) {
        Some(i) => {
            assert(after[i] == app);
        },
        None => {
            assert(after[apps.len() as int] == app);
        },
    }
    if owner_position(apps, other) is Some {
        let k = owner_position(apps, other)->0;
        assert(after[k] == apps[k]);
    }
    if owner_position(after, other) is Some {
        let k = owner_position(after, other)->0;
        assert(after[k] != app);
        assert(after[k] == apps[k]);
    }
}

/// Once the application of a client has been dropped, the client has none, and nothing else
/// changes.
pub proof fn dropped_app_is_gone(apps: Seq<AppModel>, owner: Seq<char>, other: Seq<char>)
    requires
        distinct_owners(apps),
        other != owner,
    ensures
        app_of(unregistered(apps, owner), owner) is None,
        app_of(unregistered(apps, owner), other) == app_of(apps, other),
{
    lemma_owner_position(apps, owner);
    lemma_owner_position(apps, other);
    let after = unregistered(apps, owner);
    lemma_owner_position(after, owner);
    lemma_owner_position(after, other);
    if owner_position(apps, owner) is Some {
        let i = owner_position(apps, owner)->0;
        if owner_position(after, owner) is Some {
            let k = owner_position(after, owner)->0;
            let k1 = if k < i {
                k
            } else {
                k + 1
            };
            assert(after[k] == apps[k1]);
            assert(apps[k1].owner != apps[i].owner);
        }
        if owner_position(apps, other) is Some {
            let k = owner_position(apps, other)->0;
            let k1 = if k < i {
                k
            } else {
                k - 1
            };
            assert(after[k1] == apps[k]);
            let m = owner_position(after, other)->0;
            let m1 = if m < i {
                m
            } else {
                m + 1
            };
            assert(after[m] == apps[m1]);
            assert(m1 == k);
        } else if owner_position(after, other) is Some {
            let m = owner_position(after, other)->0;
            let m1 = if m < i {
                m
            } else {
                m + 1
            };
            assert(after[m] == apps[m1]);
        }
    }
}

} // verus!
