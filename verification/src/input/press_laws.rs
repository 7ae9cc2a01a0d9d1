//! Which binding a key press runs, told by the modifiers and the key.

use crate::config::keybinding;
use crate::config::keybinding::KeyBindingModifiers;
use crate::input::binding_resolver::ResolverModel;
use crate::input::binding_resolver;
use crate::seqs;
use crate::text;
use vstd::prelude::*;

verus! {

/// A key press runs a configured binding that has all four modifiers as they are held, and its
/// key, whatever the case; of several the first. Only where there is none does it run a registered
/// one, and that has them too: a global one, or, where no global one has them, one of the
/// application that has the focus. Nothing runs where no binding has them.
pub proof fn a_key_press_runs_what_is_bound_to_it(
    m: ResolverModel,
    modifiers: KeyBindingModifiers,
    key: Seq<char>,
)
    ensures
        match m.resolved(modifiers, key) {
            Some(r) => match r.owner {
                None => exists|i: int|
                    0 <= i < m.statics.len() && (#[trigger] m.statics[i]).modifiers.super_key
                        == modifiers.super_key && m.statics[i].modifiers.shift == modifiers.shift
                        && m.statics[i].modifiers.ctrl == modifiers.ctrl
                        && m.statics[i].modifiers.alt == modifiers.alt
                        && text::same_ignoring_ascii_case(m.statics[i].key@, key) && r.action
                        == m.statics[i].action && r.scope == m.statics[i].scope && forall|j: int|
                        0 <= j < i ==> !((#[trigger] m.statics[j]).modifiers.super_key == modifiers.super_key && m.statics[j].modifiers.shift == modifiers.shift && m.statics[j].modifiers.ctrl == modifiers.ctrl
                && m.statics[j].modifiers.alt == modifiers.alt && text::same_ignoring_ascii_case(
                            m.statics[j].key@,
                            key,
                        )),
                Some(owner) => {
                    &&& forall|j: int|
                        0 <= j < m.statics.len() ==> !((#[trigger] m.statics[j]).modifiers.super_key == modifiers.super_key && m.statics[j].modifiers.shift == modifiers.shift && m.statics[j].modifiers.ctrl == modifiers.ctrl
                && m.statics[j].modifiers.alt == modifiers.alt && text::same_ignoring_ascii_case(
                            m.statics[j].key@,
                            key,
                        ))
                    &&& exists|i: int|
                        0 <= i < m.dynamic.len() && (#[trigger] m.dynamic[i]).owner == owner
                            && m.dynamic[i].action == r.action && binding_resolver::accelerates(
                            m.dynamic[i].binding@,
                            modifiers,
                            key,
                        ) && (r.scope is AppGlobal && m.dynamic[i].scope@ == "app_global"@
                            || r.scope is AppFocused && m.dynamic[i].scope@ == "app_focused"@
                            && m.focused == Some(m.dynamic[i].app_id@))
                    &&& r.scope is AppFocused ==> forall|j: int|
                        0 <= j < m.dynamic.len() ==> !((#[trigger] m.dynamic[j]).scope@
                            == "app_global"@ && binding_resolver::accelerates(m.dynamic[j].binding@, modifiers, key))
                },
            },
            None => {
                &&& forall|j: int|
                    0 <= j < m.statics.len() ==> !((#[trigger] m.statics[j]).modifiers.super_key == modifiers.super_key && m.statics[j].modifiers.shift == modifiers.shift && m.statics[j].modifiers.ctrl == modifiers.ctrl
                && m.statics[j].modifiers.alt == modifiers.alt && text::same_ignoring_ascii_case(
                        m.statics[j].key@,
                        key,
                    ))
                &&& forall|j: int|
                    0 <= j < m.dynamic.len() ==> !(((#[trigger] m.dynamic[j]).scope@
                        == "app_global"@ || m.dynamic[j].scope@ == "app_focused"@ && m.focused
                        == Some(m.dynamic[j].app_id@)) && binding_resolver::accelerates(
                        m.dynamic[j].binding@,
                        modifiers,
                        key,
                    ))
            },
        },
{
    let p = binding_resolver::static_hit(modifiers, key);
    let g = binding_resolver::global_hit(modifiers, key);
    seqs::the_first_is_before_all_others(m.statics, p);
    seqs::the_first_is_before_all_others(m.dynamic, g);
    match seqs::first_where(m.statics, p) {
        Some(b) => {
            let i = choose|i: int|
                0 <= i < m.statics.len() && #[trigger] m.statics[i] == b && p(m.statics[i])
                    && forall|j: int| 0 <= j < i ==> !p(#[trigger] m.statics[j]);
            assert forall|j: int| 0 <= j < i implies !((#[trigger] m.statics[j]).modifiers.super_key == modifiers.super_key && m.statics[j].modifiers.shift == modifiers.shift && m.statics[j].modifiers.ctrl == modifiers.ctrl
                && m.statics[j].modifiers.alt == modifiers.alt && text::same_ignoring_ascii_case(
                m.statics[j].key@,
                key,
            )) by {
                assert(!p(m.statics[j]));
            }
            assert(m.statics[i].modifiers.super_key == modifiers.super_key);
        },
        None => {
            assert forall|j: int| 0 <= j < m.statics.len() implies !((#[trigger] m.statics[j]).modifiers.super_key == modifiers.super_key && m.statics[j].modifiers.shift == modifiers.shift && m.statics[j].modifiers.ctrl == modifiers.ctrl
                && m.statics[j].modifiers.alt == modifiers.alt && text::same_ignoring_ascii_case(
                m.statics[j].key@,
                key,
            )) by {
                assert(!p(m.statics[j]));
            }
            match seqs::first_where(m.dynamic, g) {
                Some(e) => {
                    let i = choose|i: int|
                        0 <= i < m.dynamic.len() && #[trigger] m.dynamic[i] == e && g(m.dynamic[i])
                            && forall|j: int| 0 <= j < i ==> !g(#[trigger] m.dynamic[j]);
                    assert(m.dynamic[i].owner == e.owner);
                },
                None => {
                    assert forall|j: int| 0 <= j < m.dynamic.len() implies !((
                    #[trigger] m.dynamic[j]).scope@ == "app_global"@ && binding_resolver::accelerates(
                        m.dynamic[j].binding@,
                        modifiers,
                        key,
                    )) by {
                        assert(!g(m.dynamic[j]));
                    }
                    if m.focused is Some {
                        let f = binding_resolver::focused_hit(m.focused->0, modifiers, key);
                        seqs::the_first_is_before_all_others(m.dynamic, f);
                        match seqs::first_where(m.dynamic, f) {
                            Some(e) => {
                                let i = choose|i: int|
                                    0 <= i < m.dynamic.len() && #[trigger] m.dynamic[i] == e && f(
                                        m.dynamic[i],
                                    ) && forall|j: int| 0 <= j < i ==> !f(#[trigger] m.dynamic[j]);
                                assert(m.dynamic[i].owner == e.owner);
                            },
                            None => {
                                assert forall|j: int| 0 <= j < m.dynamic.len() implies !((
                                #[trigger] m.dynamic[j]).scope@ == "app_focused"@
                                    && m.focused == Some(m.dynamic[j].app_id@) && binding_resolver::accelerates(
                                    m.dynamic[j].binding@,
                                    modifiers,
                                    key,
                                )) by {
                                    assert(!f(m.dynamic[j]));
                                }
                            },
                        }
                    }
                },
            }
        },
    }
}

/// Nothing runs where a modifier is held that no binding has, or one is missing that all have.
pub proof fn another_modifier_is_another_key_press(
    m: ResolverModel,
    modifiers: KeyBindingModifiers,
    key: Seq<char>,
)
    requires
        forall|i: int|
            0 <= i < m.statics.len() ==> {
                ||| (#[trigger] m.statics[i]).modifiers.super_key != modifiers.super_key
                ||| m.statics[i].modifiers.shift != modifiers.shift
                ||| m.statics[i].modifiers.ctrl != modifiers.ctrl
                ||| m.statics[i].modifiers.alt != modifiers.alt
            },
        forall|i: int|
            0 <= i < m.dynamic.len() ==> {
                let named = keybinding::accelerator((#[trigger] m.dynamic[i]).binding@).0;
                ||| named.super_key != modifiers.super_key
                ||| named.shift != modifiers.shift
                ||| named.ctrl != modifiers.ctrl
                ||| named.alt != modifiers.alt
            },
    ensures
        m.resolved(modifiers, key) is None,
{
    a_key_press_runs_what_is_bound_to_it(m, modifiers, key);
}

} // verus!
