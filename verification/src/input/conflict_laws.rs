//! The bindings that share a key press.

use crate::config::keybinding::KeyBindingModifiers;
use crate::dbus::input_manager::BindingInfo;
use crate::input::binding_resolver::{
    BindingScope, ResolvedBinding, ResolverModel, StaticBinding,
};
use crate::input::binding_resolver;
use crate::seqs;
use crate::text;
use vstd::prelude::*;

verus! {

/// The conflicts of a key press are the bindings that have its modifiers and its key: all of them
/// and no others, and what would run is among them.
pub proof fn conflicts_are_all_bindings_of_a_key_press(
    m: ResolverModel,
    modifiers: KeyBindingModifiers,
    key: Seq<char>,
)
    ensures
        forall|i: int|
            0 <= i < m.statics.len() && (#[trigger] m.statics[i]).modifiers.super_key
                == modifiers.super_key && m.statics[i].modifiers.shift == modifiers.shift
                && m.statics[i].modifiers.ctrl == modifiers.ctrl && m.statics[i].modifiers.alt
                == modifiers.alt && text::same_ignoring_ascii_case(m.statics[i].key@, key)
                ==> m.conflicts(modifiers, key).contains(
                ResolvedBinding {
                    action: m.statics[i].action,
                    scope: m.statics[i].scope,
                    owner: None,
                },
            ),
        forall|i: int|
            0 <= i < m.dynamic.len() && binding_resolver::accelerates(
                (#[trigger] m.dynamic[i]).binding@,
                modifiers,
                key,
            ) ==> m.conflicts(modifiers, key).contains(
                ResolvedBinding {
                    action: m.dynamic[i].action,
                    scope: if m.dynamic[i].scope@ == "app_global"@ {
                        BindingScope::AppGlobal
                    } else {
                        BindingScope::AppFocused
                    },
                    owner: Some(m.dynamic[i].owner),
                },
            ),
        forall|k: int|
            0 <= k < m.conflicts(modifiers, key).len() ==> {
                let r = #[trigger] m.conflicts(modifiers, key)[k];
                ||| exists|i: int|
                    0 <= i < m.statics.len() && r.owner is None && r.action == (
                    #[trigger] m.statics[i]).action && r.scope == m.statics[i].scope
                        && m.statics[i].modifiers.super_key == modifiers.super_key
                        && m.statics[i].modifiers.shift == modifiers.shift
                        && m.statics[i].modifiers.ctrl == modifiers.ctrl
                        && m.statics[i].modifiers.alt == modifiers.alt
                        && text::same_ignoring_ascii_case(m.statics[i].key@, key)
                ||| exists|i: int|
                    0 <= i < m.dynamic.len() && r.owner == Some((#[trigger] m.dynamic[i]).owner)
                        && r.action == m.dynamic[i].action && binding_resolver::accelerates(
                        m.dynamic[i].binding@,
                        modifiers,
                        key,
                    )
            },
        m.resolved(modifiers, key) matches Some(r) ==> m.conflicts(modifiers, key).contains(r),
{
    let p = binding_resolver::static_hit(modifiers, key);
    let q = binding_resolver::dynamic_hit(modifiers, key);
    seqs::lemma_filter_contains(m.statics, p);
    seqs::lemma_filter_contains(m.dynamic, q);
    let f = |b: StaticBinding| binding_resolver::from_static(b);
    let g = |e: BindingInfo|
        binding_resolver::from_dynamic(
            e,
            if e.scope@ == "app_global"@ {
                BindingScope::AppGlobal
            } else {
                BindingScope::AppFocused
            },
        );
    let x = m.statics.filter(p);
    let y = m.dynamic.filter(q);
    let all = m.conflicts(modifiers, key);
    assert(all =~= x.map_values(f) + y.map_values(g));
    assert forall|i: int| 0 <= i < m.statics.len() && p(#[trigger] m.statics[i]) implies all.contains(
        binding_resolver::from_static(m.statics[i]),
    ) by {
        assert(x.contains(m.statics[i]));
        let k = choose|k: int| 0 <= k < x.len() && x[k] == m.statics[i];
        assert(all[k] == f(x[k]));
    }
    assert forall|i: int| 0 <= i < m.dynamic.len() && q(#[trigger] m.dynamic[i]) implies all.contains(
        g(m.dynamic[i]),
    ) by {
        assert(y.contains(m.dynamic[i]));
        let k = choose|k: int| 0 <= k < y.len() && y[k] == m.dynamic[i];
        assert(all[x.len() + k] == g(y[k]));
    }
    assert forall|i: int|
        0 <= i < m.statics.len() && (#[trigger] m.statics[i]).modifiers.super_key
            == modifiers.super_key && m.statics[i].modifiers.shift == modifiers.shift
            && m.statics[i].modifiers.ctrl == modifiers.ctrl && m.statics[i].modifiers.alt
            == modifiers.alt && text::same_ignoring_ascii_case(m.statics[i].key@, key) implies p(
        m.statics[i],
    ) by {}
    assert forall|k: int| 0 <= k < all.len() implies {
        let r = #[trigger] all[k];
        ||| exists|i: int|
            0 <= i < m.statics.len() && r.owner is None && r.action == (
            #[trigger] m.statics[i]).action && r.scope == m.statics[i].scope
                && m.statics[i].modifiers.super_key == modifiers.super_key
                && m.statics[i].modifiers.shift == modifiers.shift && m.statics[i].modifiers.ctrl
                == modifiers.ctrl && m.statics[i].modifiers.alt == modifiers.alt
                && text::same_ignoring_ascii_case(m.statics[i].key@, key)
        ||| exists|i: int|
            0 <= i < m.dynamic.len() && r.owner == Some((#[trigger] m.dynamic[i]).owner)
                && r.action == m.dynamic[i].action && binding_resolver::accelerates(
                m.dynamic[i].binding@,
                modifiers,
                key,
            )
    } by {
        if k < x.len() {
            assert(all[k] == f(x[k]));
            assert(m.statics.contains(x[k]));
            let i = choose|i: int| 0 <= i < m.statics.len() && m.statics[i] == x[k];
            assert(p(m.statics[i]));
        } else {
            let e = y[k - x.len()];
            assert(all[k] == g(e));
            assert(m.dynamic.contains(e));
            let i = choose|i: int| 0 <= i < m.dynamic.len() && m.dynamic[i] == e;
            assert(q(m.dynamic[i]));
        }
    }
    if m.resolved(modifiers, key) is Some {
        seqs::lemma_first_where(m.statics, p);
        seqs::lemma_first_where(m.dynamic, binding_resolver::global_hit(modifiers, key));
        if m.focused is Some {
            seqs::lemma_first_where(m.dynamic, binding_resolver::focused_hit(m.focused->0, modifiers, key));
        }
        reveal_strlit("app_focused");
        reveal_strlit("app_global");
        assert("app_focused"@.len() != "app_global"@.len());
        let r = m.resolved(modifiers, key)->0;
        if r.owner is None {
            let b = seqs::first_where(m.statics, p)->0;
            let i = choose|i: int| 0 <= i < m.statics.len() && m.statics[i] == b;
            assert(p(m.statics[i]));
            assert(all.contains(binding_resolver::from_static(m.statics[i])));
        } else {
            let e = if seqs::first_where(m.dynamic, binding_resolver::global_hit(modifiers, key)) is Some {
                seqs::first_where(m.dynamic, binding_resolver::global_hit(modifiers, key))->0
            } else {
                seqs::first_where(m.dynamic, binding_resolver::focused_hit(m.focused->0, modifiers, key))->0
            };
            let i = choose|i: int| 0 <= i < m.dynamic.len() && m.dynamic[i] == e;
            assert(q(m.dynamic[i]));
            assert(all.contains(g(m.dynamic[i])));
        }
    }
}

} // verus!
