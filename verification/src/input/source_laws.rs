//! In which order the sources of bindings count.

use crate::config::keybinding;
use crate::config::keybinding::{FragmentEntry, KeyBinding, KeyBindingModifiers};
use crate::input::binding_resolver::{BindingScope, ResolverModel, StaticBinding};
use crate::input::binding_resolver;
use crate::seqs;
use crate::text;
use vstd::prelude::*;

verus! {

/// What is configured comes in the order of its sources: the system, the shell, the user, modules
/// and then applications; the bindings of one source keep their order, and none is lost or added.
pub proof fn the_sources_have_their_order(bindings: Seq<StaticBinding>, scope: BindingScope)
    ensures
        ({
            let sorted = binding_resolver::by_scope(bindings);
            &&& sorted.filter(|b: StaticBinding| b.scope == scope) == bindings.filter(
                |b: StaticBinding| b.scope == scope,
            )
            &&& sorted.len() == bindings.len()
            &&& forall|a: int, b: int|
                0 <= a < b < sorted.len() ==> match (#[trigger] sorted[b]).scope {
                    BindingScope::System => (#[trigger] sorted[a]).scope is System,
                    BindingScope::Shell => sorted[a].scope is System || sorted[a].scope is Shell,
                    BindingScope::User => !(sorted[a].scope is Module)
                        && !(sorted[a].scope is AppGlobal) && !(sorted[a].scope is AppFocused),
                    BindingScope::Module => !(sorted[a].scope is AppGlobal)
                        && !(sorted[a].scope is AppFocused),
                    BindingScope::AppGlobal => !(sorted[a].scope is AppFocused),
                    BindingScope::AppFocused => true,
                }
        }),
{
    binding_resolver::lemma_by_scope(bindings);
    let q = |b: StaticBinding| b.scope == scope;
    assert(q =~= binding_resolver::of_scope(scope));
    let f0 = bindings.filter(binding_resolver::of_scope(BindingScope::System));
    let f1 = bindings.filter(binding_resolver::of_scope(BindingScope::Shell));
    let f2 = bindings.filter(binding_resolver::of_scope(BindingScope::User));
    let f3 = bindings.filter(binding_resolver::of_scope(BindingScope::Module));
    let f4 = bindings.filter(binding_resolver::of_scope(BindingScope::AppGlobal));
    let f5 = bindings.filter(binding_resolver::of_scope(BindingScope::AppFocused));
    Seq::filter_distributes_over_add(f0, f1, binding_resolver::of_scope(scope));
    Seq::filter_distributes_over_add(f0 + f1, f2, binding_resolver::of_scope(scope));
    Seq::filter_distributes_over_add(f0 + f1 + f2, f3, binding_resolver::of_scope(scope));
    Seq::filter_distributes_over_add(f0 + f1 + f2 + f3, f4, binding_resolver::of_scope(scope));
    Seq::filter_distributes_over_add(f0 + f1 + f2 + f3 + f4, f5, binding_resolver::of_scope(scope));
    lemma_scopes_apart(bindings, BindingScope::System, scope);
    lemma_scopes_apart(bindings, BindingScope::Shell, scope);
    lemma_scopes_apart(bindings, BindingScope::User, scope);
    lemma_scopes_apart(bindings, BindingScope::Module, scope);
    lemma_scopes_apart(bindings, BindingScope::AppGlobal, scope);
    lemma_scopes_apart(bindings, BindingScope::AppFocused, scope);
    assert(binding_resolver::by_scope(bindings).filter(binding_resolver::of_scope(scope)) =~= bindings.filter(binding_resolver::of_scope(scope)));
    lemma_scopes_are_all(bindings);
    let sorted = binding_resolver::by_scope(bindings);
    assert forall|a: int, b: int| 0 <= a < b < sorted.len() implies match (
    #[trigger] sorted[b]).scope {
        BindingScope::System => (#[trigger] sorted[a]).scope is System,
        BindingScope::Shell => sorted[a].scope is System || sorted[a].scope is Shell,
        BindingScope::User => !(sorted[a].scope is Module) && !(sorted[a].scope is AppGlobal)
            && !(sorted[a].scope is AppFocused),
        BindingScope::Module => !(sorted[a].scope is AppGlobal) && !(sorted[a].scope is AppFocused),
        BindingScope::AppGlobal => !(sorted[a].scope is AppFocused),
        BindingScope::AppFocused => true,
    } by {
        assert(sorted[a].scope.rank() <= sorted[b].scope.rank());
    }
}

/// The bindings of one source that are of another are none.
proof fn lemma_scopes_apart(bindings: Seq<StaticBinding>, a: BindingScope, b: BindingScope)
    ensures
        bindings.filter(binding_resolver::of_scope(a)).filter(binding_resolver::of_scope(b)) == if a == b {
            bindings.filter(binding_resolver::of_scope(a))
        } else {
            seq![]
        },
    decreases bindings.len(),
{
    reveal(Seq::filter);
    if bindings.len() > 0 {
        let init = bindings.drop_last();
        lemma_scopes_apart(init, a, b);
        if binding_resolver::of_scope(a)(bindings.last()) {
            seqs::lemma_filter_push(init.filter(binding_resolver::of_scope(a)), binding_resolver::of_scope(b), bindings.last());
        }
    }
}

/// The bindings of all sources are all bindings.
proof fn lemma_scopes_are_all(bindings: Seq<StaticBinding>)
    ensures
        bindings.filter(binding_resolver::of_scope(BindingScope::System)).len() + bindings.filter(
            binding_resolver::of_scope(BindingScope::Shell),
        ).len() + bindings.filter(binding_resolver::of_scope(BindingScope::User)).len() + bindings.filter(
            binding_resolver::of_scope(BindingScope::Module),
        ).len() + bindings.filter(binding_resolver::of_scope(BindingScope::AppGlobal)).len() + bindings.filter(
            binding_resolver::of_scope(BindingScope::AppFocused),
        ).len() == bindings.len(),
    decreases bindings.len(),
{
    if bindings.len() > 0 {
        let init = bindings.drop_last();
        let last = bindings.last();
        assert(bindings =~= init.push(last));
        lemma_scopes_are_all(init);
        seqs::lemma_filter_push(init, binding_resolver::of_scope(BindingScope::System), last);
        seqs::lemma_filter_push(init, binding_resolver::of_scope(BindingScope::Shell), last);
        seqs::lemma_filter_push(init, binding_resolver::of_scope(BindingScope::User), last);
        seqs::lemma_filter_push(init, binding_resolver::of_scope(BindingScope::Module), last);
        seqs::lemma_filter_push(init, binding_resolver::of_scope(BindingScope::AppGlobal), last);
        seqs::lemma_filter_push(init, binding_resolver::of_scope(BindingScope::AppFocused), last);
    } else {
        seqs::lemma_filter_contains(bindings, binding_resolver::of_scope(BindingScope::System));
        seqs::lemma_filter_contains(bindings, binding_resolver::of_scope(BindingScope::Shell));
        seqs::lemma_filter_contains(bindings, binding_resolver::of_scope(BindingScope::User));
        seqs::lemma_filter_contains(bindings, binding_resolver::of_scope(BindingScope::Module));
        seqs::lemma_filter_contains(bindings, binding_resolver::of_scope(BindingScope::AppGlobal));
        seqs::lemma_filter_contains(bindings, binding_resolver::of_scope(BindingScope::AppFocused));
    }
}

/// A key that the user has bound runs an action that the user has bound to it, whatever modules
/// and applications bind to it.
pub proof fn what_the_user_binds_wins(
    user: Seq<KeyBinding>,
    modules: Seq<FragmentEntry>,
    m: ResolverModel,
    key: Seq<char>,
    i: int,
)
    requires
        binding_resolver::configured_statics(user, modules, m.statics),
        0 <= i < user.len(),
        text::same_ignoring_ascii_case(user[i].key@, key),
    ensures
        m.resolved(user[i].modifiers, key) matches Some(r) && r.owner is None && r.scope is User
            && exists|k: int|
            0 <= k <= i && (#[trigger] user[k]).action@ == r.action@
                && text::same_ignoring_ascii_case(user[k].key@, key) && user[k].modifiers.super_key
                == user[i].modifiers.super_key && user[k].modifiers.shift == user[i].modifiers.shift
                && user[k].modifiers.ctrl == user[i].modifiers.ctrl && user[k].modifiers.alt
                == user[i].modifiers.alt,
{
    let p = binding_resolver::static_hit(user[i].modifiers, key);
    assert(m.statics[i].modifiers == user[i].modifiers && m.statics[i].key@ == user[i].key@);
    let k = lemma_first_of(m.statics, p, i);
    assert(m.statics[k].action@ == user[k].action@ && m.statics[k].key@ == user[k].key@
        && m.statics[k].modifiers == user[k].modifiers && m.statics[k].scope is User);
}

/// The first of the elements with a property, where one is known.
proof fn lemma_first_of(
    s: Seq<StaticBinding>,
    p: spec_fn(StaticBinding) -> bool,
    i: int,
) -> (k: int)
    requires
        0 <= i < s.len(),
        p(s[i]),
    ensures
        0 <= k <= i,
        p(s[k]),
        seqs::first_where(s, p) == Some(s[k]),
{
    seqs::the_first_is_before_all_others(s, p);
    let b = seqs::first_where(s, p)->0;
    let k = choose|k: int|
        0 <= k < s.len() && #[trigger] s[k] == b && p(s[k]) && forall|j: int|
            0 <= j < k ==> !p(#[trigger] s[j]);
    k
}

/// The bindings of the user and those of modules come in the order of their sources as they are.
pub proof fn configured_bindings_are_in_order(
    user: Seq<KeyBinding>,
    modules: Seq<FragmentEntry>,
    statics: Seq<StaticBinding>,
)
    requires
        binding_resolver::configured_statics(user, modules, statics),
    ensures
        binding_resolver::by_scope(statics) == statics,
{
    let n = user.len() as int;
    let u = statics.take(n);
    let v = statics.skip(n);
    assert(statics =~= u + v);
    assert forall|j: int| 0 <= j < u.len() implies (#[trigger] u[j]).scope is User by {
        assert(u[j] == statics[j]);
    }
    assert forall|j: int| 0 <= j < v.len() implies (#[trigger] v[j]).scope is Module by {
        assert(v[j] == statics[j + n]);
    }
    lemma_users_before_modules(u, v);
}

/// The bindings of the user and behind them those of modules are in the order of their sources.
proof fn lemma_users_before_modules(u: Seq<StaticBinding>, v: Seq<StaticBinding>)
    requires
        forall|j: int| 0 <= j < u.len() ==> (#[trigger] u[j]).scope is User,
        forall|j: int| 0 <= j < v.len() ==> (#[trigger] v[j]).scope is Module,
    ensures
        binding_resolver::by_scope(u + v) == u + v,
{
    lemma_only_scope(u, BindingScope::User, BindingScope::System);
    lemma_only_scope(u, BindingScope::User, BindingScope::Shell);
    lemma_only_scope(u, BindingScope::User, BindingScope::User);
    lemma_only_scope(u, BindingScope::User, BindingScope::Module);
    lemma_only_scope(u, BindingScope::User, BindingScope::AppGlobal);
    lemma_only_scope(u, BindingScope::User, BindingScope::AppFocused);
    lemma_only_scope(v, BindingScope::Module, BindingScope::System);
    lemma_only_scope(v, BindingScope::Module, BindingScope::Shell);
    lemma_only_scope(v, BindingScope::Module, BindingScope::User);
    lemma_only_scope(v, BindingScope::Module, BindingScope::Module);
    lemma_only_scope(v, BindingScope::Module, BindingScope::AppGlobal);
    lemma_only_scope(v, BindingScope::Module, BindingScope::AppFocused);
    Seq::filter_distributes_over_add(u, v, binding_resolver::of_scope(BindingScope::System));
    Seq::filter_distributes_over_add(u, v, binding_resolver::of_scope(BindingScope::Shell));
    Seq::filter_distributes_over_add(u, v, binding_resolver::of_scope(BindingScope::User));
    Seq::filter_distributes_over_add(u, v, binding_resolver::of_scope(BindingScope::Module));
    Seq::filter_distributes_over_add(u, v, binding_resolver::of_scope(BindingScope::AppGlobal));
    Seq::filter_distributes_over_add(u, v, binding_resolver::of_scope(BindingScope::AppFocused));
    assert(binding_resolver::by_scope(u + v) =~= u + v);
}

/// Of bindings of one source all are of it and none of another.
proof fn lemma_only_scope(s: Seq<StaticBinding>, own: BindingScope, scope: BindingScope)
    requires
        forall|j: int| 0 <= j < s.len() ==> (#[trigger] s[j]).scope == own,
    ensures
        s.filter(binding_resolver::of_scope(scope)) == if scope == own {
            s
        } else {
            seq![]
        },
    decreases s.len(),
{
    reveal(Seq::filter);
    if s.len() > 0 {
        assert(s.last().scope == own);
        assert forall|j: int| 0 <= j < s.drop_last().len() implies (
        #[trigger] s.drop_last()[j]).scope == own by {
            assert(s.drop_last()[j] == s[j]);
        }
        lemma_only_scope(s.drop_last(), own, scope);
        assert(s =~= s.drop_last().push(s.last()));
    }
}

/// A key that a module binds, and the user does not, runs an action that a module binds to it.
pub proof fn what_a_module_binds_runs(
    user: Seq<KeyBinding>,
    modules: Seq<FragmentEntry>,
    m: ResolverModel,
    modifiers: KeyBindingModifiers,
    key: Seq<char>,
    i: int,
)
    requires
        binding_resolver::configured_statics(user, modules, m.statics),
        0 <= i < modules.len(),
        binding_resolver::accelerates(modules[i].binding@, modifiers, key),
        forall|k: int|
            0 <= k < user.len() ==> (#[trigger] user[k]).modifiers != modifiers
                || !text::same_ignoring_ascii_case(user[k].key@, key),
    ensures
        m.resolved(modifiers, key) matches Some(r) && r.owner is None && r.scope is Module
            && exists|k: int|
            0 <= k <= i && (#[trigger] modules[k]).action@ == r.action@ && binding_resolver::accelerates(
                modules[k].binding@,
                modifiers,
                key,
            ),
{
    let p = binding_resolver::static_hit(modifiers, key);
    let n = user.len() as int;
    let b = m.statics[n + i];
    assert((b.modifiers, b.key@) == keybinding::accelerator(modules[i].binding@));
    let k = lemma_first_of(m.statics, p, n + i);
    let c = m.statics[k];
    if k < n {
        assert(c.modifiers == user[k].modifiers && c.key@ == user[k].key@);
        assert(false);
    }
    assert((c.modifiers, c.key@) == keybinding::accelerator(modules[k - n].binding@));
    assert(c.action@ == modules[k - n].action@ && c.scope is Module);
}

} // verus!
