//! Key bindings that applications register over the bus.

use crate::config::keybinding::parse_keybinding;
use crate::dbus::app_interface;
use crate::dbus::app_interface::AppRegistry;
use crate::dbus::error;
use crate::dbus::error::BusError;
use crate::seqs;
use crate::text;
use crate::text::str_eq;
use vstd::prelude::*;

verus! {

/// A key binding that an application has registered.
#[derive(Debug, PartialEq, Eq)]
pub struct BindingInfo {
    /// The accelerator, such as `Ctrl+S`.
    pub binding: String,
    /// What the application calls the action.
    pub action: String,
    /// `app_focused` or `app_global`.
    pub scope: String,
    /// The unique name of the client on the bus.
    pub owner: String,
    /// The application that has to have the focus, for `app_focused`.
    pub app_id: String,
}

impl Clone for BindingInfo {
    fn clone(&self) -> (r: BindingInfo)
        ensures
            r == *self,
    {
        BindingInfo {
            binding: self.binding.clone(),
            action: self.action.clone(),
            scope: self.scope.clone(),
            owner: self.owner.clone(),
            app_id: self.app_id.clone(),
        }
    }
}

/// A binding that stands in the way of another.
#[derive(Debug, PartialEq, Eq)]
pub struct ConflictInfo {
    pub binding: String,
    pub existing_action: String,
    pub existing_scope: String,
    pub existing_owner: String,
}

/// The model of a binding that stands in the way.
#[verifier::ext_equal]
pub struct ConflictModel {
    pub binding: Seq<char>,
    pub existing_action: Seq<char>,
    pub existing_scope: Seq<char>,
    pub existing_owner: Seq<char>,
}

impl View for ConflictInfo {
    type V = ConflictModel;

    open spec fn view(&self) -> ConflictModel {
        ConflictModel {
            binding: self.binding@,
            existing_action: self.existing_action@,
            existing_scope: self.existing_scope@,
            existing_owner: self.existing_owner@,
        }
    }
}

/// What became of a registration: on failure `conflict` holds the bindings in the way.
#[derive(Debug, PartialEq, Eq)]
pub struct RegisterResult {
    pub success: bool,
    pub conflict: Vec<ConflictInfo>,
}

/// The bindings that applications have registered, in the order of their registration.
#[derive(Debug, PartialEq, Eq)]
pub struct DynamicBindings {
    pub entries: Vec<BindingInfo>,
}

impl View for DynamicBindings {
    type V = Seq<BindingInfo>;

    open spec fn view(&self) -> Seq<BindingInfo> {
        self.entries@
    }
}

impl Default for DynamicBindings {
    fn default() -> (r: DynamicBindings)
        ensures
            r@ == Seq::<BindingInfo>::empty(),
    {
        DynamicBindings { entries: Vec::new() }
    }
}

/// Whether an entry has the given accelerator.
pub open spec fn uses(binding: Seq<char>) -> spec_fn(BindingInfo) -> bool {
    |e: BindingInfo| e.binding@ == binding
}

/// Whether an entry is not the one of the given client for the given accelerator.
pub open spec fn survives(owner: Seq<char>, binding: Seq<char>) -> spec_fn(BindingInfo) -> bool {
    |e: BindingInfo| !(e.owner@ == owner && e.binding@ == binding)
}

/// Whether an entry is not of the given client.
pub open spec fn not_of(owner: Seq<char>) -> spec_fn(BindingInfo) -> bool {
    |e: BindingInfo| e.owner@ != owner
}

/// Whether an entry has the given scope.
pub open spec fn in_scope(scope: Seq<char>) -> spec_fn(BindingInfo) -> bool {
    |e: BindingInfo| e.scope@ == scope
}

impl DynamicBindings {
    /// All bindings.
    pub fn all(&self) -> (r: Vec<BindingInfo>)
        ensures
            r@ == self@,
    {
        let mut out: Vec<BindingInfo> = Vec::new();
        let mut i: usize = 0;
        while i < self.entries.len()
            invariant
                i <= self.entries@.len(),
                out@ == self.entries@.take(i as int),
            decreases self.entries@.len() - i,
        {
            out.push(self.entries[i].clone());
            i += 1;
        }
        assert(self.entries@.take(i as int) =~= self.entries@);
        out
    }

    /// The bindings with the given accelerator.
    pub fn find_conflicts(&self, binding: &str) -> (r: Vec<BindingInfo>)
        ensures
            r@ == self@.filter(uses(binding@)),
    {
        let mut out: Vec<BindingInfo> = Vec::new();
        let mut i: usize = 0;
        proof {
            reveal(Seq::filter);
            assert(self.entries@.take(0) =~= seq![]);
        }
        while i < self.entries.len()
            invariant
                i <= self.entries@.len(),
                out@ == self.entries@.take(i as int).filter(uses(binding@)),
            decreases self.entries@.len() - i,
        {
            proof {
                seqs::lemma_filter_take(self.entries@, uses(binding@), i as int);
            }
            if str_eq(self.entries[i].binding.as_str(), binding) {
                out.push(self.entries[i].clone());
            }
            i += 1;
        }
        assert(self.entries@.take(i as int) =~= self.entries@);
        out
    }

    /// Adds a binding.
    pub fn insert(&mut self, info: BindingInfo)
        ensures
            final(self)@ == old(self)@.push(info),
    {
        self.entries.push(info);
    }

    /// Removes the bindings of a client with the given accelerator; returns whether there were
    /// any.
    pub fn remove(&mut self, owner: &str, binding: &str) -> (r: bool)
        ensures
            final(self)@ == old(self)@.filter(survives(owner@, binding@)),
            r == exists|i: int|
                0 <= i < old(self)@.len() && (#[trigger] old(self)@[i]).owner@ == owner@
                    && old(self)@[i].binding@ == binding@,
    {
        let ghost before = self@;
        let ghost keep = survives(owner@, binding@);
        let mut kept: Vec<BindingInfo> = Vec::new();
        let mut removed: bool = false;
        let mut i: usize = 0;
        proof {
            reveal(Seq::filter);
            assert(before.take(0) =~= seq![]);
        }
        while i < self.entries.len()
            invariant
                self@ == before,
                keep == survives(owner@, binding@),
                i <= self.entries@.len(),
                kept@ == before.take(i as int).filter(keep),
                removed == exists|j: int|
                    0 <= j < i && (#[trigger] before[j]).owner@ == owner@ && before[j].binding@
                        == binding@,
            decreases self.entries@.len() - i,
        {
            proof {
                seqs::lemma_filter_take(before, keep, i as int);
            }
            let e: &BindingInfo = &self.entries[i];
            if str_eq(e.owner.as_str(), owner) && str_eq(e.binding.as_str(), binding) {
                assert(before[i as int].owner@ == owner@);
                removed = true;
            } else {
                kept.push(e.clone());
            }
            i += 1;
        }
        assert(before.take(i as int) =~= before);
        self.entries = kept;
        removed
    }

    /// Removes all bindings of a client; returns how many there were.
    pub fn remove_owner(&mut self, owner: &str) -> (r: usize)
        ensures
            final(self)@ == old(self)@.filter(not_of(owner@)),
            r == old(self)@.len() - final(self)@.len(),
    {
        let ghost before = self@;
        let ghost keep = not_of(owner@);
        let mut kept: Vec<BindingInfo> = Vec::new();
        let mut i: usize = 0;
        proof {
            reveal(Seq::filter);
            assert(before.take(0) =~= seq![]);
        }
        while i < self.entries.len()
            invariant
                self@ == before,
                keep == not_of(owner@),
                i <= self.entries@.len(),
                kept@.len() <= i,
                kept@ == before.take(i as int).filter(keep),
            decreases self.entries@.len() - i,
        {
            proof {
                seqs::lemma_filter_take(before, keep, i as int);
            }
            if !str_eq(self.entries[i].owner.as_str(), owner) {
                kept.push(self.entries[i].clone());
            }
            i += 1;
        }
        assert(before.take(i as int) =~= before);
        let removed: usize = self.entries.len() - kept.len();
        self.entries = kept;
        removed
    }

    /// Whether a client has a binding.
    pub fn contains_owner(&self, owner: &str) -> (r: bool)
        ensures
            r == exists|i: int| 0 <= i < self@.len() && (#[trigger] self@[i]).owner@ == owner@,
    {
        let mut i: usize = 0;
        while i < self.entries.len()
            invariant
                i <= self.entries@.len(),
                forall|j: int| 0 <= j < i ==> (#[trigger] self@[j]).owner@ != owner@,
            decreases self.entries@.len() - i,
        {
            if str_eq(self.entries[i].owner.as_str(), owner) {
                assert(self@[i as int].owner@ == owner@);
                return true;
            }
            i += 1;
        }
        false
    }

    /// The bindings of a scope, or all for an empty scope.
    pub fn query_bindings(&self, scope_filter: &str) -> (r: Vec<BindingInfo>)
        ensures
            r@ == if scope_filter@.len() == 0 {
                self@
            } else {
                self@.filter(in_scope(scope_filter@))
            },
    {
        if scope_filter.is_empty() {
            return self.all();
        }
        let mut out: Vec<BindingInfo> = Vec::new();
        let mut i: usize = 0;
        proof {
            reveal(Seq::filter);
            assert(self.entries@.take(0) =~= seq![]);
        }
        while i < self.entries.len()
            invariant
                i <= self.entries@.len(),
                out@ == self.entries@.take(i as int).filter(in_scope(scope_filter@)),
            decreases self.entries@.len() - i,
        {
            proof {
                seqs::lemma_filter_take(self.entries@, in_scope(scope_filter@), i as int);
            }
            if str_eq(self.entries[i].scope.as_str(), scope_filter) {
                out.push(self.entries[i].clone());
            }
            i += 1;
        }
        assert(self.entries@.take(i as int) =~= self.entries@);
        out
    }

    /// The bindings with the given accelerator, as conflicts.
    pub fn query_conflicts(&self, binding: &str) -> (r: Vec<ConflictInfo>)
        ensures
            conflict_models(r@) == conflicts_from(self@.filter(uses(binding@)), binding@),
    {
        let found: Vec<BindingInfo> = self.find_conflicts(binding);
        proof {
            seqs::lemma_filter_contains(self@, uses(binding@));
        }
        let mut out: Vec<ConflictInfo> = Vec::new();
        let mut i: usize = 0;
        while i < found.len()
            invariant
                i <= found@.len(),
                forall|j: int| 0 <= j < found@.len() ==> (#[trigger] found@[j]).binding@
                    == binding@,
                conflict_models(out@) =~= conflicts_from(found@, binding@).take(i as int),
            decreases found@.len() - i,
        {
            let ghost before = out@;
            let c: ConflictInfo = conflict_with(&found[i], binding);
            out.push(c);
            assert(conflict_models(out@) =~= conflict_models(before).push(c@));
            i += 1;
        }
        assert(conflicts_from(found@, binding@).take(i as int) =~= conflicts_from(
            found@,
            binding@,
        ));
        out
    }

    /// A name on the bus has changed hands: where nobody holds it any more, the bindings of the
    /// client are removed. Returns how many were.
    pub fn name_owner_changed(&mut self, name: &str, has_new_owner: bool) -> (r: usize)
        ensures
            final(self)@ == if has_new_owner {
                old(self)@
            } else {
                old(self)@.filter(not_of(name@))
            },
            r == old(self)@.len() - final(self)@.len(),
    {
        if has_new_owner {
            0
        } else {
            self.remove_owner(name)
        }
    }
}

/// The conflict that an entry is for a binding with the given accelerator.
pub open spec fn conflict_of(e: BindingInfo, binding: Seq<char>) -> ConflictModel {
    ConflictModel {
        binding,
        existing_action: e.action@,
        existing_scope: e.scope@,
        existing_owner: e.owner@,
    }
}

/// The conflict that an entry is for a binding with the given accelerator.
fn conflict_with(e: &BindingInfo, binding: &str) -> (r: ConflictInfo)
    ensures
        r@ == conflict_of(*e, binding@),
{
    ConflictInfo {
        binding: binding.to_owned(),
        existing_action: e.action.clone(),
        existing_scope: e.scope.clone(),
        existing_owner: e.owner.clone(),
    }
}

/// The conflicts that entries are for a binding with the given accelerator.
pub open spec fn conflicts_from(entries: Seq<BindingInfo>, binding: Seq<char>) -> Seq<
    ConflictModel,
> {
    entries.map_values(|e: BindingInfo| conflict_of(e, binding))
}

/// The models of a list of conflicts.
pub open spec fn conflict_models(conflicts: Seq<ConflictInfo>) -> Seq<ConflictModel> {
    conflicts.map_values(|c: ConflictInfo| c@)
}

/// Whether a scope exists.
pub open spec fn known_scope(scope: Seq<char>) -> bool {
    scope == "app_focused"@ || scope == "app_global"@
}

/// Refuses a scope that does not exist.
pub fn validate_scope(scope: &str) -> (r: Result<(), BusError>)
    ensures
        match r {
            Ok(_) => known_scope(scope@),
            Err(e) => !known_scope(scope@) && e@ == (error::ErrorModel::UnknownScope {
                scope: scope@,
            }),
        },
{
    if str_eq(scope, "app_focused") || str_eq(scope, "app_global") {
        Ok(())
    } else {
        Err(BusError::UnknownScope { scope: scope.to_owned() })
    }
}

/// Refuses an empty accelerator. Every other text is one.
pub fn validate_binding(binding: &str) -> (r: Result<(), BusError>)
    ensures
        match r {
            Ok(_) => binding@.len() > 0,
            Err(e) => binding@.len() == 0 && e@ == error::ErrorModel::EmptyBinding,
        },
{
    if binding.is_empty() {
        return Err(BusError::EmptyBinding);
    }
    match parse_keybinding(binding) {
        Some(_) => Ok(()),
        None => Err(BusError::EmptyBinding),
    }
}

/// Whether two registrations of one accelerator stand in each other's way: where one of them is
/// global, or both are for the same application.
pub open spec fn dominates(
    scope: Seq<char>,
    app_id: Seq<char>,
    other_scope: Seq<char>,
    other_app_id: Seq<char>,
) -> bool {
    scope == "app_global"@ || other_scope == "app_global"@ || app_id == other_app_id
}

/// Whether an existing registration stands in the way of a new one of the same accelerator.
pub fn registration_dominates(existing: &BindingInfo, new_scope: &str, new_app_id: &str) -> (r:
    bool)
    ensures
        r == dominates(existing.scope@, existing.app_id@, new_scope@, new_app_id@),
{
    if str_eq(existing.scope.as_str(), "app_global") || str_eq(new_scope, "app_global") {
        return true;
    }
    str_eq(existing.app_id.as_str(), new_app_id)
}

/// Whether an existing registration stands in the way of a new one.
pub open spec fn in_the_way(
    binding: Seq<char>,
    scope: Seq<char>,
    app_id: Seq<char>,
) -> spec_fn(BindingInfo) -> bool {
    |e: BindingInfo| e.binding@ == binding && dominates(e.scope@, e.app_id@, scope, app_id)
}

/// Why a client may not register a binding in the given scope; none where it may.
pub open spec fn denial(
    apps: Seq<app_interface::AppModel>,
    sender: Option<Seq<char>>,
    binding: Seq<char>,
    scope: Seq<char>,
    app_id: Seq<char>,
) -> Option<error::ErrorModel> {
    if !known_scope(scope) {
        Some(error::ErrorModel::UnknownScope { scope })
    } else if binding.len() == 0 {
        Some(error::ErrorModel::EmptyBinding)
    } else {
        match sender {
            None => Some(error::ErrorModel::NoSender),
            Some(owner) => if scope == "app_focused"@ {
                if app_id.len() == 0 {
                    Some(error::ErrorModel::FocusedWithoutAppId)
                } else {
                    match app_interface::app_of(apps, owner) {
                        Some(app) => if app.app_id == app_id {
                            None
                        } else {
                            Some(
                                error::ErrorModel::AppIdMismatch {
                                    registered: app.app_id,
                                    claimed: app_id,
                                },
                            )
                        },
                        None => Some(error::ErrorModel::FocusedUnregistered),
                    }
                }
            } else {
                match app_interface::app_of(apps, owner) {
                    Some(app) => if app.may_bind_globally() {
                        None
                    } else {
                        Some(error::ErrorModel::GlobalNotPermitted { app_id: app.app_id })
                    },
                    None => Some(error::ErrorModel::GlobalUnregistered),
                }
            },
        }
    }
}

/// The two scopes differ.
proof fn scopes_differ()
    ensures
        "app_focused"@ != "app_global"@,
{
    reveal_strlit("app_focused");
    reveal_strlit("app_global");
    assert("app_focused"@.len() != "app_global"@.len());
}

/// Checks that a client may register a binding; returns the client.
fn authorize(
    registry: &AppRegistry,
    sender: Option<String>,
    binding: &str,
    scope: &str,
    app_id: &str,
) -> (r: Result<String, BusError>)
    ensures
        ({
            let who = text::optional_view(sender);
            match r {
                Ok(owner) => sender == Some(owner) && denial(
                    registry@,
                    who,
                    binding@,
                    scope@,
                    app_id@,
                ) is None,
                Err(e) => denial(registry@, who, binding@, scope@, app_id@) == Some(e@),
            }
        }),
{
    proof {
        scopes_differ();
    }
    if let Err(e) = validate_scope(scope) {
        return Err(e);
    }
    if let Err(e) = validate_binding(binding) {
        return Err(e);
    }
    let owner: String = match sender {
        Some(owner) => owner,
        None => return Err(BusError::NoSender),
    };
    if str_eq(scope, "app_focused") {
        if app_id.is_empty() {
            return Err(BusError::FocusedWithoutAppId);
        }
        match registry.by_owner(owner.as_str()) {
            Some(info) => {
                if !str_eq(info.app_id.as_str(), app_id) {
                    return Err(
                        BusError::AppIdMismatch {
                            registered: info.app_id.clone(),
                            claimed: app_id.to_owned(),
                        },
                    );
                }
            },
            None => return Err(BusError::FocusedUnregistered),
        }
    } else {
        match registry.by_owner(owner.as_str()) {
            Some(info) => {
                if !info.can_register_global_bindings() {
                    return Err(BusError::GlobalNotPermitted { app_id: info.app_id.clone() });
                }
            },
            None => return Err(BusError::GlobalUnregistered),
        }
    }
    Ok(owner)
}

/// The registrations that stand in the way of a new one.
fn conflicts_with(store: &DynamicBindings, binding: &str, scope: &str, app_id: &str) -> (r: Vec<
    ConflictInfo,
>)
    ensures
        conflict_models(r@) == conflicts_from(
            store@.filter(in_the_way(binding@, scope@, app_id@)),
            binding@,
        ),
{
    let ghost p = in_the_way(binding@, scope@, app_id@);
    let mut out: Vec<ConflictInfo> = Vec::new();
    let mut i: usize = 0;
    proof {
        reveal(Seq::filter);
        assert(store@.take(0) =~= seq![]);
        assert(conflict_models(out@) =~= conflicts_from(store@.take(0).filter(p), binding@));
    }
    while i < store.entries.len()
        invariant
            i <= store@.len(),
            p == in_the_way(binding@, scope@, app_id@),
            conflict_models(out@) == conflicts_from(store@.take(i as int).filter(p), binding@),
        decreases store@.len() - i,
    {
        proof {
            seqs::lemma_filter_take(store@, p, i as int);
        }
        let e: &BindingInfo = &store.entries[i];
        if str_eq(e.binding.as_str(), binding) && registration_dominates(e, scope, app_id) {
            let ghost before = out@;
            let c: ConflictInfo = conflict_with(e, binding);
            out.push(c);
            proof {
                assert(conflict_models(out@) =~= conflict_models(before).push(c@));
                assert(conflicts_from(store@.take(i + 1).filter(p), binding@) =~= conflicts_from(
                    store@.take(i as int).filter(p),
                    binding@,
                ).push(c@));
            }
        }
        i += 1;
    }
    assert(store@.take(i as int) =~= store@);
    out
}

/// Registers a binding for the sender of a message.
///
/// The scope is `app_focused`, for which the client must have registered as `app_id`, or
/// `app_global`, for which it must have the permission. Nothing is registered where another
/// registration stands in the way.
pub fn register_binding(
    store: &mut DynamicBindings,
    registry: &AppRegistry,
    sender: Option<String>,
    binding: String,
    action: String,
    scope: String,
    app_id: String,
) -> (r: Result<RegisterResult, BusError>)
    ensures
        ({
            let refused = denial(
                registry@,
                text::optional_view(sender),
                binding@,
                scope@,
                app_id@,
            );
            let obstacles = old(store)@.filter(in_the_way(binding@, scope@, app_id@));
            match r {
                Err(e) => refused == Some(e@) && final(store)@ == old(store)@,
                Ok(result) => {
                    &&& refused is None
                    &&& result.success == (obstacles.len() == 0)
                    &&& conflict_models(result.conflict@) == conflicts_from(obstacles, binding@)
                    &&& final(store)@ == if obstacles.len() == 0 {
                        old(store)@.push(
                            BindingInfo { binding, action, scope, owner: sender->0, app_id },
                        )
                    } else {
                        old(store)@
                    }
                },
            }
        }),
{
    let owner: String = match authorize(
        registry,
        sender,
        binding.as_str(),
        scope.as_str(),
        app_id.as_str(),
    ) {
        Ok(owner) => owner,
        Err(e) => return Err(e),
    };
    let conflict: Vec<ConflictInfo> = conflicts_with(
        store,
        binding.as_str(),
        scope.as_str(),
        app_id.as_str(),
    );
    assert(conflict_models(conflict@).len() == conflict@.len());
    if conflict.len() > 0 {
        return Ok(RegisterResult { success: false, conflict });
    }
    store.insert(BindingInfo { binding, action, scope, owner, app_id });
    Ok(RegisterResult { success: true, conflict })
}

/// Removes a binding of the sender of a message; returns whether there was one.
pub fn unregister_binding(
    store: &mut DynamicBindings,
    sender: Option<String>,
    binding: &str,
) -> (r: Result<bool, BusError>)
    ensures
        match (r, sender) {
            (Ok(removed), Some(owner)) => {
                &&& final(store)@ == old(store)@.filter(survives(owner@, binding@))
                &&& removed == exists|i: int|
                    0 <= i < old(store)@.len() && (#[trigger] old(store)@[i]).owner@ == owner@
                        && old(store)@[i].binding@ == binding@
            },
            (Err(e), None) => e@ == error::ErrorModel::NoSender && final(store)@ == old(store)@,
            _ => false,
        },
{
    match sender {
        Some(owner) => Ok(store.remove(owner.as_str(), binding)),
        None => Err(BusError::NoSender),
    }
}

/// Removes all bindings of the sender of a message; returns how many there were.
pub fn unregister_all(store: &mut DynamicBindings, sender: Option<String>) -> (r: Result<
    u32,
    BusError,
>)
    ensures
        match (r, sender) {
            (Ok(removed), Some(owner)) => {
                &&& final(store)@ == old(store)@.filter(not_of(owner@))
                &&& removed == (old(store)@.len() - final(store)@.len()) as u32
            },
            (Err(e), None) => e@ == error::ErrorModel::NoSender && final(store)@ == old(store)@,
            _ => false,
        },
{
    match sender {
        Some(owner) => {
            let removed: usize = store.remove_owner(owner.as_str());
            Ok(removed as u32)
        },
        None => Err(BusError::NoSender),
    }
}

/// Standing in each other's way is mutual.
pub proof fn dominating_is_mutual(
    scope: Seq<char>,
    app_id: Seq<char>,
    other_scope: Seq<char>,
    other_app_id: Seq<char>,
)
    ensures
        dominates(scope, app_id, other_scope, other_app_id) == dominates(
            other_scope,
            other_app_id,
            scope,
            app_id,
        ),
{
}

/// Whether no two registrations stand in each other's way.
pub open spec fn conflict_free(entries: Seq<BindingInfo>) -> bool {
    forall|i: int, j: int|
        0 <= i < entries.len() && 0 <= j < entries.len() && i != j && (
        #[trigger] entries[i]).binding@ == (#[trigger] entries[j]).binding@ ==> !dominates(
            entries[i].scope@,
            entries[i].app_id@,
            entries[j].scope@,
            entries[j].app_id@,
        )
}

/// A registration that nothing stands in the way of keeps the bindings free of conflicts.
pub proof fn registering_keeps_bindings_conflict_free(
    entries: Seq<BindingInfo>,
    info: BindingInfo,
)
    requires
        conflict_free(entries),
        entries.filter(in_the_way(info.binding@, info.scope@, info.app_id@)).len() == 0,
    ensures
        conflict_free(entries.push(info)),
{
    let p = in_the_way(info.binding@, info.scope@, info.app_id@);
    seqs::lemma_filter_contains(entries, p);
    let after = entries.push(info);
    assert forall|i: int, j: int|
        0 <= i < after.len() && 0 <= j < after.len() && i != j && (#[trigger] after[i]).binding@
            == (#[trigger] after[j]).binding@ implies !dominates(
        after[i].scope@,
        after[i].app_id@,
        after[j].scope@,
        after[j].app_id@,
    ) by {
        if i < entries.len() && j == entries.len() {
            assert(!p(entries[i]));
        }
        if j < entries.len() && i == entries.len() {
            assert(!p(entries[j]));
        }
    }
}

/// Removing bindings keeps them free of conflicts.
pub proof fn removing_keeps_bindings_conflict_free(
    entries: Seq<BindingInfo>,
    p: spec_fn(BindingInfo) -> bool,
)
    requires
        conflict_free(entries),
    ensures
        conflict_free(entries.filter(p)),
    decreases entries.len(),
{
    reveal(Seq::filter);
    if entries.len() > 0 {
        let init = entries.drop_last();
        assert(conflict_free(init)) by {
            assert forall|i: int, j: int|
                0 <= i < init.len() && 0 <= j < init.len() && i != j && (
                #[trigger] init[i]).binding@ == (#[trigger] init[j]).binding@ implies !dominates(
                init[i].scope@,
                init[i].app_id@,
                init[j].scope@,
                init[j].app_id@,
            ) by {
                assert(init[i] == entries[i] && init[j] == entries[j]);
            }
        }
        removing_keeps_bindings_conflict_free(init, p);
        seqs::lemma_filter_contains(init, p);
        let kept = init.filter(p);
        let last = entries.last();
        if p(last) {
            let after = kept.push(last);
            assert forall|i: int, j: int|
                0 <= i < after.len() && 0 <= j < after.len() && i != j && (
                #[trigger] after[i]).binding@ == (#[trigger] after[j]).binding@ implies !dominates(
                after[i].scope@,
                after[i].app_id@,
                after[j].scope@,
                after[j].app_id@,
            ) by {
                if i < kept.len() && j == kept.len() {
                    let k = choose|k: int| 0 <= k < init.len() && init[k] == kept[i];
                    assert(entries[k] == kept[i]);
                    assert(entries[entries.len() - 1] == last);
                }
                if j < kept.len() && i == kept.len() {
                    let k = choose|k: int| 0 <= k < init.len() && init[k] == kept[j];
                    assert(entries[k] == kept[j]);
                    assert(entries[entries.len() - 1] == last);
                }
            }
        }
    }
}

/// Whether a character can stand in an element of the name of a client.
pub open spec fn is_name_char(c: char) -> bool {
    'a' <= c <= 'z' || 'A' <= c <= 'Z' || '0' <= c <= '9' || c == '_' || c == '-'
}

/// Whether a text is the unique name of a client: that of the bus itself, or a colon and at least
/// two elements, separated by dots, in not more than 255 characters.
pub open spec fn is_unique_name(name: Seq<char>) -> bool {
    ||| name == "org.freedesktop.DBus"@
    ||| {
        let elements = text::split_on(name.skip(1), '.');
        &&& 0 < name.len() <= 255
        &&& name[0] == ':'
        &&& elements.len() >= 2
        &&& forall|i: int|
            0 <= i < elements.len() ==> (#[trigger] elements[i]).len() > 0 && forall|j: int|
                0 <= j < elements[i].len() ==> is_name_char(#[trigger] elements[i][j])
    }
}

/// `zbus::names::UniqueName::try_from` of the crate `zbus`: whether a text is the unique name of a
/// client on the bus, which is so where it is written as `is_unique_name` says.
#[verifier::external_body]
fn unique_name(name: &str) -> (r: bool)
    ensures
        r == is_unique_name(name@),
{
    zbus::names::UniqueName::try_from(name).is_ok()
}

/// What becomes of the news that a binding was used.
#[derive(Clone, Copy, Debug, PartialEq, Eq, Structural)]
pub enum SignalOutcome {
    /// It is dropped: the bus is not there yet.
    NotReady,
    /// It is dropped: the client has no name on the bus.
    InvalidOwner,
    /// The client that registered the binding is told, and no other.
    Send,
}

/// What becomes of the news that a binding was used, where it is known whether the client has a
/// name on the bus.
pub fn signal_outcome(bus_ready: bool, named: bool) -> (r: SignalOutcome)
    ensures
        r == if !bus_ready {
            SignalOutcome::NotReady
        } else if !named {
            SignalOutcome::InvalidOwner
        } else {
            SignalOutcome::Send
        },
{
    if !bus_ready {
        SignalOutcome::NotReady
    } else if !named {
        SignalOutcome::InvalidOwner
    } else {
        SignalOutcome::Send
    }
}

/// What becomes of the news that a binding of a client was used.
pub fn emit_binding_invoked(bus_ready: bool, owner: &str) -> (r: SignalOutcome)
    ensures
        r == if !bus_ready {
            SignalOutcome::NotReady
        } else if !is_unique_name(owner@) {
            SignalOutcome::InvalidOwner
        } else {
            SignalOutcome::Send
        },
{
    signal_outcome(bus_ready, unique_name(owner))
}

/// Once a client's bindings have been removed it has none left, and those of others stay.
pub proof fn a_gone_client_leaves_no_bindings(entries: Seq<BindingInfo>, owner: Seq<char>, i: int)
    requires
        0 <= i < entries.len(),
    ensures
        forall|j: int|
            0 <= j < entries.filter(not_of(owner)).len() ==> (#[trigger] entries.filter(
                not_of(owner),
            )[j]).owner@ != owner,
        entries[i].owner@ != owner ==> entries.filter(not_of(owner)).contains(entries[i]),
{
    seqs::lemma_filter_contains(entries, not_of(owner));
    assert forall|j: int| 0 <= j < entries.filter(not_of(owner)).len() implies (
    #[trigger] entries.filter(not_of(owner))[j]).owner@ != owner by {
        assert(not_of(owner)(entries.filter(not_of(owner))[j]));
    }
    if entries[i].owner@ != owner {
        assert(not_of(owner)(entries[i]));
    }
}

/// Only a client that has registered an application can register a binding, and only for that
/// application or with its permission.
pub proof fn bindings_need_a_registered_app(
    apps: Seq<app_interface::AppModel>,
    sender: Option<Seq<char>>,
    binding: Seq<char>,
    scope: Seq<char>,
    app_id: Seq<char>,
)
    requires
        denial(apps, sender, binding, scope, app_id) is None,
    ensures
        sender is Some,
        app_interface::app_of(apps, sender->0) is Some,
        scope == "app_focused"@ ==> app_interface::app_of(apps, sender->0)->0.app_id == app_id,
        scope == "app_global"@ ==> app_interface::app_of(apps, sender->0)->0.may_bind_globally(),
{
    scopes_differ();
}

} // verus!
