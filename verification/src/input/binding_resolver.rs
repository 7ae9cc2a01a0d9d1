//! Which binding a key press invokes, among all sources of bindings.

use crate::config::keybinding;
use crate::config::keybinding::{parse_keybinding, FragmentEntry, KeyBinding, KeyBindingModifiers};
use crate::dbus::input_manager::{BindingInfo, DynamicBindings};
use crate::seqs;
use crate::text;
use crate::text::{eq_ignore_ascii_case, str_eq};
use vstd::prelude::*;

verus! {

/// The sources of bindings, from the one that counts most.
#[derive(Clone, Copy, Debug, PartialEq, Eq, PartialOrd, Ord, Structural)]
pub enum BindingScope {
    System,
    Shell,
    User,
    Module,
    AppGlobal,
    AppFocused,
}

impl BindingScope {
    /// The rank of a source: the lower, the more it counts.
    pub open spec fn rank(self) -> int {
        match self {
            BindingScope::System => 0,
            BindingScope::Shell => 1,
            BindingScope::User => 2,
            BindingScope::Module => 3,
            BindingScope::AppGlobal => 4,
            BindingScope::AppFocused => 5,
        }
    }
}

/// A binding that is configured.
#[derive(Debug, PartialEq, Eq)]
pub struct StaticBinding {
    pub modifiers: KeyBindingModifiers,
    pub key: String,
    pub action: String,
    pub scope: BindingScope,
}

impl Clone for StaticBinding {
    fn clone(&self) -> (r: StaticBinding)
        ensures
            r == *self,
    {
        StaticBinding {
            modifiers: self.modifiers,
            key: self.key.clone(),
            action: self.action.clone(),
            scope: self.scope,
        }
    }
}

impl StaticBinding {
    /// The binding that is configured as `kb`.
    pub fn from_toml(kb: &KeyBinding, scope: BindingScope) -> (r: StaticBinding)
        ensures
            r.modifiers == kb.modifiers,
            r.key@ == kb.key@,
            r.action@ == kb.action@,
            r.scope == scope,
    {
        StaticBinding {
            modifiers: kb.modifiers,
            key: kb.key.clone(),
            action: kb.action.clone(),
            scope,
        }
    }

    /// The binding of an action to an accelerator such as `Super+Shift+H`. Every text is one.
    pub fn from_accelerator(accelerator: &str, action: String, scope: BindingScope) -> (r: Option<
        StaticBinding,
    >)
        ensures
            match r {
                Some(b) => {
                    &&& (b.modifiers, b.key@) == keybinding::accelerator(accelerator@)
                    &&& b.action == action
                    &&& b.scope == scope
                },
                None => false,
            },
    {
        match parse_keybinding(accelerator) {
            Some((modifiers, key)) => Some(StaticBinding { modifiers, key, action, scope }),
            None => None,
        }
    }
}

/// The binding that a key press invokes.
#[derive(Debug, PartialEq, Eq)]
pub struct ResolvedBinding {
    pub action: String,
    pub scope: BindingScope,
    /// The client that has registered the binding, where one has.
    pub owner: Option<String>,
}

/// All bindings, and which application has the focus.
#[derive(Debug, PartialEq, Eq)]
pub struct BindingResolver {
    /// The configured bindings in the order in which they count.
    pub static_bindings: Vec<StaticBinding>,
    /// The registered bindings.
    pub dynamic: DynamicBindings,
    /// The application that has the focus.
    pub focused_app: Option<String>,
}

/// The bindings of a resolver.
#[verifier::ext_equal]
pub struct ResolverModel {
    /// The configured bindings in the order in which they count.
    pub statics: Seq<StaticBinding>,
    /// The registered bindings in the order of their registration.
    pub dynamic: Seq<BindingInfo>,
    pub focused: Option<Seq<char>>,
}

impl View for BindingResolver {
    type V = ResolverModel;

    open spec fn view(&self) -> ResolverModel {
        ResolverModel {
            statics: self.static_bindings@,
            dynamic: self.dynamic@,
            focused: text::optional_view(self.focused_app),
        }
    }
}

/// Whether a configured binding is invoked by a key press.
pub open spec fn static_hit(modifiers: KeyBindingModifiers, key: Seq<char>) -> spec_fn(
    StaticBinding,
) -> bool {
    |b: StaticBinding| b.modifiers == modifiers && text::same_ignoring_ascii_case(b.key@, key)
}

/// Whether an accelerator is that of a key press.
pub open spec fn accelerator_hit(
    binding: Seq<char>,
    modifiers: KeyBindingModifiers,
    key: Seq<char>,
) -> bool {
    let (m, k) = keybinding::accelerator(binding);
    m == modifiers && text::same_ignoring_ascii_case(k, key)
}

/// Whether a registered binding is invoked by a key press, whatever has the focus.
pub open spec fn dynamic_hit(modifiers: KeyBindingModifiers, key: Seq<char>) -> spec_fn(
    BindingInfo,
) -> bool {
    |e: BindingInfo| accelerator_hit(e.binding@, modifiers, key)
}

/// Whether a global binding is invoked by a key press.
pub open spec fn global_hit(modifiers: KeyBindingModifiers, key: Seq<char>) -> spec_fn(
    BindingInfo,
) -> bool {
    |e: BindingInfo|
        e.scope@ == "app_global"@ && accelerator_hit(e.binding@, modifiers, key)
}

/// Whether a binding of the focused application is invoked by a key press.
pub open spec fn focused_hit(
    app_id: Seq<char>,
    modifiers: KeyBindingModifiers,
    key: Seq<char>,
) -> spec_fn(BindingInfo) -> bool {
    |e: BindingInfo|
        e.scope@ == "app_focused"@ && e.app_id@ == app_id && accelerator_hit(
            e.binding@,
            modifiers,
            key,
        )
}

/// A configured binding as the result of a key press.
pub open spec fn from_static(b: StaticBinding) -> ResolvedBinding {
    ResolvedBinding { action: b.action, scope: b.scope, owner: None }
}

/// A registered binding as the result of a key press.
pub open spec fn from_dynamic(e: BindingInfo, scope: BindingScope) -> ResolvedBinding {
    ResolvedBinding { action: e.action, scope, owner: Some(e.owner) }
}

impl ResolverModel {
    /// The binding that a key press invokes: the first one that is configured, else the first
    /// global one, else the first one of the application that has the focus.
    pub open spec fn resolved(self, modifiers: KeyBindingModifiers, key: Seq<char>) -> Option<
        ResolvedBinding,
    > {
        match seqs::first_where(self.statics, static_hit(modifiers, key)) {
            Some(b) => Some(from_static(b)),
            None => match seqs::first_where(self.dynamic, global_hit(modifiers, key)) {
                Some(e) => Some(from_dynamic(e, BindingScope::AppGlobal)),
                None => match self.focused {
                    Some(app) => match seqs::first_where(
                        self.dynamic,
                        focused_hit(app, modifiers, key),
                    ) {
                        Some(e) => Some(from_dynamic(e, BindingScope::AppFocused)),
                        None => None,
                    },
                    None => None,
                },
            },
        }
    }

    /// All bindings for a key press, whatever has the focus.
    pub open spec fn conflicts(self, modifiers: KeyBindingModifiers, key: Seq<char>) -> Seq<
        ResolvedBinding,
    > {
        self.statics.filter(static_hit(modifiers, key)).map_values(
            |b: StaticBinding| from_static(b),
        ) + self.dynamic.filter(dynamic_hit(modifiers, key)).map_values(
            |e: BindingInfo|
                from_dynamic(
                    e,
                    if e.scope@ == "app_global"@ {
                        BindingScope::AppGlobal
                    } else {
                        BindingScope::AppFocused
                    },
                ),
        )
    }
}

/// Whether a binding is of the given source.
pub open spec fn of_scope(scope: BindingScope) -> spec_fn(StaticBinding) -> bool {
    |b: StaticBinding| b.scope == scope
}

/// The bindings in the order of their sources; those of one source keep their order.
pub open spec fn by_scope(bindings: Seq<StaticBinding>) -> Seq<StaticBinding> {
    bindings.filter(of_scope(BindingScope::System)) + bindings.filter(
        of_scope(BindingScope::Shell),
    ) + bindings.filter(of_scope(BindingScope::User)) + bindings.filter(
        of_scope(BindingScope::Module),
    ) + bindings.filter(of_scope(BindingScope::AppGlobal)) + bindings.filter(
        of_scope(BindingScope::AppFocused),
    )
}

/// Adds the bindings of the given source.
fn append_scope(from: &Vec<StaticBinding>, scope: BindingScope, out: &mut Vec<StaticBinding>)
    ensures
        final(out)@ == old(out)@ + from@.filter(of_scope(scope)),
{
    let ghost start = out@;
    let mut i: usize = 0;
    proof {
        reveal(Seq::filter);
        assert(from@.take(0) =~= seq![]);
        assert(start + from@.take(0).filter(of_scope(scope)) =~= start);
    }
    while i < from.len()
        invariant
            i <= from@.len(),
            out@ == start + from@.take(i as int).filter(of_scope(scope)),
        decreases from@.len() - i,
    {
        proof {
            seqs::lemma_filter_take(from@, of_scope(scope), i as int);
        }
        if from[i].scope == scope {
            out.push(from[i].clone());
            assert(out@ =~= start + from@.take(i + 1).filter(of_scope(scope)));
        }
        i += 1;
    }
    assert(from@.take(i as int) =~= from@);
}

/// Whether an accelerator is that of a key press.
fn hits(binding: &str, modifiers: &KeyBindingModifiers, key: &str) -> (r: bool)
    ensures
        r == accelerator_hit(binding@, *modifiers, key@),
{
    match parse_keybinding(binding) {
        Some((m, k)) => m == *modifiers && eq_ignore_ascii_case(k.as_str(), key),
        None => false,
    }
}

impl BindingResolver {
    /// A resolver with the given registered bindings, no configured ones and no focus.
    pub fn new(dynamic: DynamicBindings) -> (r: BindingResolver)
        ensures
            r@ == (ResolverModel { statics: seq![], dynamic: dynamic@, focused: None }),
            r.dynamic == dynamic,
    {
        let r = BindingResolver { static_bindings: Vec::new(), dynamic, focused_app: None };
        assert(r@.statics =~= seq![]);
        r
    }

    /// Replaces the configured bindings, which are put in the order of their sources.
    pub fn set_static_bindings(&mut self, bindings: Vec<StaticBinding>)
        ensures
            final(self)@ == (ResolverModel { statics: by_scope(bindings@), ..old(self)@ }),
            final(self).dynamic == old(self).dynamic,
    {
        let mut sorted: Vec<StaticBinding> = Vec::new();
        append_scope(&bindings, BindingScope::System, &mut sorted);
        append_scope(&bindings, BindingScope::Shell, &mut sorted);
        append_scope(&bindings, BindingScope::User, &mut sorted);
        append_scope(&bindings, BindingScope::Module, &mut sorted);
        append_scope(&bindings, BindingScope::AppGlobal, &mut sorted);
        append_scope(&bindings, BindingScope::AppFocused, &mut sorted);
        assert(sorted@ =~= by_scope(bindings@));
        self.static_bindings = sorted;
    }

    /// Sets which application has the focus.
    pub fn set_focused_app(&mut self, app_id: Option<String>)
        ensures
            final(self)@ == (ResolverModel {
                focused: text::optional_view(app_id),
                ..old(self)@
            }),
            final(self).dynamic == old(self).dynamic,
    {
        self.focused_app = app_id;
    }

    /// The application that has the focus.
    pub fn focused_app_id(&self) -> (r: Option<String>)
        ensures
            text::optional_view(r) == self@.focused,
    {
        match &self.focused_app {
            Some(app_id) => Some(app_id.clone()),
            None => None,
        }
    }

    /// The binding that a key press invokes.
    pub fn resolve(&self, modifiers: &KeyBindingModifiers, key: &str) -> (r: Option<
        ResolvedBinding,
    >)
        ensures
            r == self@.resolved(*modifiers, key@),
    {
        if let Some(b) = self.find_static(modifiers, key) {
            return Some(
                ResolvedBinding { action: b.action.clone(), scope: b.scope, owner: None },
            );
        }
        if let Some(e) = self.find_global(modifiers, key) {
            return Some(
                ResolvedBinding {
                    action: e.action.clone(),
                    scope: BindingScope::AppGlobal,
                    owner: Some(e.owner.clone()),
                },
            );
        }
        let app: &String = match &self.focused_app {
            Some(app) => app,
            None => return None,
        };
        match self.find_focused(app.as_str(), modifiers, key) {
            Some(e) => Some(
                ResolvedBinding {
                    action: e.action.clone(),
                    scope: BindingScope::AppFocused,
                    owner: Some(e.owner.clone()),
                },
            ),
            None => None,
        }
    }

    /// The first configured binding for a key press.
    fn find_static(&self, modifiers: &KeyBindingModifiers, key: &str) -> (r: Option<
        &StaticBinding,
    >)
        ensures
            match r {
                Some(b) => seqs::first_where(self@.statics, static_hit(*modifiers, key@))
                    == Some(*b),
                None => seqs::first_where(self@.statics, static_hit(*modifiers, key@)) is None,
            },
    {
        let ghost p = static_hit(*modifiers, key@);
        let mut i: usize = 0;
        while i < self.static_bindings.len()
            invariant
                i <= self.static_bindings@.len(),
                p == static_hit(*modifiers, key@),
                forall|j: int| 0 <= j < i ==> !p(#[trigger] self@.statics[j]),
            decreases self.static_bindings@.len() - i,
        {
            let b: &StaticBinding = &self.static_bindings[i];
            if b.modifiers == *modifiers && eq_ignore_ascii_case(b.key.as_str(), key) {
                proof {
                    seqs::lemma_first_where_skip(self@.statics, p, i as int);
                    assert(self@.statics.skip(i as int)[0] == *b);
                }
                return Some(b);
            }
            assert(!p(self@.statics[i as int]));
            i += 1;
        }
        proof {
            seqs::lemma_first_where_skip(self@.statics, p, i as int);
        }
        None
    }

    /// The first global binding for a key press.
    fn find_global(&self, modifiers: &KeyBindingModifiers, key: &str) -> (r: Option<&BindingInfo>)
        ensures
            match r {
                Some(e) => seqs::first_where(self@.dynamic, global_hit(*modifiers, key@))
                    == Some(*e),
                None => seqs::first_where(self@.dynamic, global_hit(*modifiers, key@)) is None,
            },
    {
        let ghost p = global_hit(*modifiers, key@);
        let mut i: usize = 0;
        while i < self.dynamic.entries.len()
            invariant
                i <= self.dynamic.entries@.len(),
                p == global_hit(*modifiers, key@),
                forall|j: int| 0 <= j < i ==> !p(#[trigger] self@.dynamic[j]),
            decreases self.dynamic.entries@.len() - i,
        {
            let e: &BindingInfo = &self.dynamic.entries[i];
            if str_eq(e.scope.as_str(), "app_global") && hits(e.binding.as_str(), modifiers, key) {
                proof {
                    seqs::lemma_first_where_skip(self@.dynamic, p, i as int);
                    assert(self@.dynamic.skip(i as int)[0] == *e);
                }
                return Some(e);
            }
            assert(!p(self@.dynamic[i as int]));
            i += 1;
        }
        proof {
            seqs::lemma_first_where_skip(self@.dynamic, p, i as int);
        }
        None
    }

    /// The first binding of the focused application for a key press.
    fn find_focused(&self, app: &str, modifiers: &KeyBindingModifiers, key: &str) -> (r: Option<
        &BindingInfo,
    >)
        ensures
            match r {
                Some(e) => seqs::first_where(self@.dynamic, focused_hit(app@, *modifiers, key@))
                    == Some(*e),
                None => seqs::first_where(
                    self@.dynamic,
                    focused_hit(app@, *modifiers, key@),
                ) is None,
            },
    {
        let ghost p = focused_hit(app@, *modifiers, key@);
        let mut i: usize = 0;
        while i < self.dynamic.entries.len()
            invariant
                i <= self.dynamic.entries@.len(),
                p == focused_hit(app@, *modifiers, key@),
                forall|j: int| 0 <= j < i ==> !p(#[trigger] self@.dynamic[j]),
            decreases self.dynamic.entries@.len() - i,
        {
            let e: &BindingInfo = &self.dynamic.entries[i];
            if str_eq(e.scope.as_str(), "app_focused") && str_eq(e.app_id.as_str(), app) && hits(
                e.binding.as_str(),
                modifiers,
                key,
            ) {
                proof {
                    seqs::lemma_first_where_skip(self@.dynamic, p, i as int);
                    assert(self@.dynamic.skip(i as int)[0] == *e);
                }
                return Some(e);
            }
            assert(!p(self@.dynamic[i as int]));
            i += 1;
        }
        proof {
            seqs::lemma_first_where_skip(self@.dynamic, p, i as int);
        }
        None
    }

    /// All bindings for a key press, whatever has the focus.
    pub fn list_conflicts(&self, modifiers: &KeyBindingModifiers, key: &str) -> (r: Vec<
        ResolvedBinding,
    >)
        ensures
            r@ == self@.conflicts(*modifiers, key@),
    {
        let ghost p = static_hit(*modifiers, key@);
        let ghost q = dynamic_hit(*modifiers, key@);
        let ghost f = |b: StaticBinding| from_static(b);
        let ghost g = |e: BindingInfo|
            from_dynamic(
                e,
                if e.scope@ == "app_global"@ {
                    BindingScope::AppGlobal
                } else {
                    BindingScope::AppFocused
                },
            );
        let mut out: Vec<ResolvedBinding> = Vec::new();
        let mut i: usize = 0;
        proof {
            reveal(Seq::filter);
            assert(self@.statics.take(0) =~= seq![]);
            assert(out@ =~= self@.statics.take(0).filter(p).map_values(f));
        }
        while i < self.static_bindings.len()
            invariant
                i <= self@.statics.len(),
                p == static_hit(*modifiers, key@),
                f == (|b: StaticBinding| from_static(b)),
                out@ == self@.statics.take(i as int).filter(p).map_values(f),
            decreases self@.statics.len() - i,
        {
            proof {
                seqs::lemma_filter_take(self@.statics, p, i as int);
            }
            let b: &StaticBinding = &self.static_bindings[i];
            if b.modifiers == *modifiers && eq_ignore_ascii_case(b.key.as_str(), key) {
                out.push(
                    ResolvedBinding { action: b.action.clone(), scope: b.scope, owner: None },
                );
                assert(out@ =~= self@.statics.take(i + 1).filter(p).map_values(f));
            }
            i += 1;
        }
        let ghost first = out@;
        proof {
            assert(self@.statics.take(i as int) =~= self@.statics);
            assert(self@.dynamic.take(0) =~= seq![]);
            assert(out@ =~= first + self@.dynamic.take(0).filter(q).map_values(g));
        }
        let mut j: usize = 0;
        while j < self.dynamic.entries.len()
            invariant
                j <= self@.dynamic.len(),
                q == dynamic_hit(*modifiers, key@),
                g == (|e: BindingInfo|
                    from_dynamic(
                        e,
                        if e.scope@ == "app_global"@ {
                            BindingScope::AppGlobal
                        } else {
                            BindingScope::AppFocused
                        },
                    )),
                out@ == first + self@.dynamic.take(j as int).filter(q).map_values(g),
            decreases self@.dynamic.len() - j,
        {
            proof {
                seqs::lemma_filter_take(self@.dynamic, q, j as int);
            }
            let e: &BindingInfo = &self.dynamic.entries[j];
            if hits(e.binding.as_str(), modifiers, key) {
                let scope: BindingScope = if str_eq(e.scope.as_str(), "app_global") {
                    BindingScope::AppGlobal
                } else {
                    BindingScope::AppFocused
                };
                out.push(
                    ResolvedBinding {
                        action: e.action.clone(),
                        scope,
                        owner: Some(e.owner.clone()),
                    },
                );
                assert(out@ =~= first + self@.dynamic.take(j + 1).filter(q).map_values(g));
            }
            j += 1;
        }
        proof {
            assert(self@.dynamic.take(j as int) =~= self@.dynamic);
        }
        out
    }
}

/// The bindings that are configured, those of modules behind those of the user.
pub open spec fn configured_statics(
    user: Seq<KeyBinding>,
    modules: Seq<FragmentEntry>,
    statics: Seq<StaticBinding>,
) -> bool {
    &&& statics.len() == user.len() + modules.len()
    &&& forall|i: int|
        0 <= i < user.len() ==> {
            let b = #[trigger] statics[i];
            b.modifiers == user[i].modifiers && b.key@ == user[i].key@ && b.action@
                == user[i].action@ && b.scope == BindingScope::User
        }
    &&& forall|i: int|
        user.len() <= i < statics.len() ==> {
            let b = #[trigger] statics[i];
            let m = modules[i - user.len()];
            (b.modifiers, b.key@) == keybinding::accelerator(m.binding@) && b.action@ == m.action@
                && b.scope == BindingScope::Module
        }
}

/// The bindings that are configured: those of the user and behind them those of modules.
pub fn static_bindings(user: &Vec<KeyBinding>, modules: &Vec<FragmentEntry>) -> (r: Vec<
    StaticBinding,
>)
    ensures
        configured_statics(user@, modules@, r@),
{
    let mut out: Vec<StaticBinding> = Vec::new();
    let mut i: usize = 0;
    while i < user.len()
        invariant
            i <= user@.len(),
            configured_statics(user@.take(i as int), seq![], out@),
        decreases user@.len() - i,
    {
        out.push(StaticBinding::from_toml(&user[i], BindingScope::User));
        i += 1;
    }
    let mut j: usize = 0;
    proof {
        assert(user@.take(i as int) =~= user@);
        assert(configured_statics(user@, modules@.take(0), out@));
    }
    while j < modules.len()
        invariant
            j <= modules@.len(),
            configured_statics(user@, modules@.take(j as int), out@),
        decreases modules@.len() - j,
    {
        if let Some(b) = StaticBinding::from_accelerator(
            modules[j].binding.as_str(),
            modules[j].action.clone(),
            BindingScope::Module,
        ) {
            out.push(b);
        }
        j += 1;
    }
    proof {
        assert(modules@.take(j as int) =~= modules@);
    }
    out
}

/// A configured binding wins over every registered one.
pub proof fn configured_bindings_take_precedence(
    m: ResolverModel,
    modifiers: KeyBindingModifiers,
    key: Seq<char>,
    i: int,
)
    requires
        0 <= i < m.statics.len(),
        static_hit(modifiers, key)(m.statics[i]),
    ensures
        m.resolved(modifiers, key) matches Some(r) && r.owner is None,
{
    seqs::lemma_first_where(m.statics, static_hit(modifiers, key));
}

/// Among configured bindings the one of the source that counts most wins.
pub proof fn the_strongest_source_wins(
    bindings: Seq<StaticBinding>,
    dynamic: Seq<BindingInfo>,
    focused: Option<Seq<char>>,
    modifiers: KeyBindingModifiers,
    key: Seq<char>,
    i: int,
)
    requires
        0 <= i < bindings.len(),
        static_hit(modifiers, key)(bindings[i]),
    ensures
        ({
            let m = ResolverModel { statics: by_scope(bindings), dynamic, focused };
            m.resolved(modifiers, key) matches Some(r) && r.scope.rank() <= bindings[i].scope.rank()
        }),
{
    let sorted = by_scope(bindings);
    let p = static_hit(modifiers, key);
    lemma_by_scope(bindings);
    let k = choose|k: int| 0 <= k < sorted.len() && sorted[k] == bindings[i];
    lemma_first_is_strongest(sorted, p, k);
}

/// In a sequence sorted by source, the first hit has the strongest source of all hits.
proof fn lemma_first_is_strongest(
    s: Seq<StaticBinding>,
    p: spec_fn(StaticBinding) -> bool,
    k: int,
)
    requires
        0 <= k < s.len(),
        p(s[k]),
        forall|a: int, b: int|
            0 <= a < b < s.len() ==> (#[trigger] s[a]).scope.rank() <= (
            #[trigger] s[b]).scope.rank(),
    ensures
        seqs::first_where(s, p) matches Some(x) && x.scope.rank() <= s[k].scope.rank(),
    decreases s.len(),
{
    if !p(s[0]) {
        assert(s.skip(1)[k - 1] == s[k]);
        assert forall|a: int, b: int| 0 <= a < b < s.skip(1).len() implies (
        #[trigger] s.skip(1)[a]).scope.rank() <= (#[trigger] s.skip(1)[b]).scope.rank() by {
            assert(s.skip(1)[a] == s[a + 1] && s.skip(1)[b] == s[b + 1]);
        }
        lemma_first_is_strongest(s.skip(1), p, k - 1);
    }
}

/// The bindings sorted by source are in the order of the sources and none is lost or added.
pub proof fn lemma_by_scope(bindings: Seq<StaticBinding>)
    ensures
        forall|a: int, b: int|
            0 <= a < b < by_scope(bindings).len() ==> (#[trigger] by_scope(
                bindings,
            )[a]).scope.rank() <= (#[trigger] by_scope(bindings)[b]).scope.rank(),
        forall|i: int|
            0 <= i < bindings.len() ==> by_scope(bindings).contains(#[trigger] bindings[i]),
        forall|i: int|
            0 <= i < by_scope(bindings).len() ==> bindings.contains(
                #[trigger] by_scope(bindings)[i],
            ),
{
    let f0 = bindings.filter(of_scope(BindingScope::System));
    let f1 = bindings.filter(of_scope(BindingScope::Shell));
    let f2 = bindings.filter(of_scope(BindingScope::User));
    let f3 = bindings.filter(of_scope(BindingScope::Module));
    let f4 = bindings.filter(of_scope(BindingScope::AppGlobal));
    let f5 = bindings.filter(of_scope(BindingScope::AppFocused));
    seqs::lemma_filter_contains(bindings, of_scope(BindingScope::System));
    seqs::lemma_filter_contains(bindings, of_scope(BindingScope::Shell));
    seqs::lemma_filter_contains(bindings, of_scope(BindingScope::User));
    seqs::lemma_filter_contains(bindings, of_scope(BindingScope::Module));
    seqs::lemma_filter_contains(bindings, of_scope(BindingScope::AppGlobal));
    seqs::lemma_filter_contains(bindings, of_scope(BindingScope::AppFocused));
    let all = by_scope(bindings);
    let e0 = f0.len() as int;
    let e1 = e0 + f1.len();
    let e2 = e1 + f2.len();
    let e3 = e2 + f3.len();
    let e4 = e3 + f4.len();
    let e5 = e4 + f5.len();
    assert forall|i: int| 0 <= i < all.len() implies bindings.contains(#[trigger] all[i])
        && all[i].scope.rank() == block_of(i, e0, e1, e2, e3, e4) by {
        if i < e0 {
            assert(all[i] == f0[i]);
            assert(of_scope(BindingScope::System)(f0[i]));
        } else if i < e1 {
            assert(all[i] == f1[i - e0]);
            assert(of_scope(BindingScope::Shell)(f1[i - e0]));
        } else if i < e2 {
            assert(all[i] == f2[i - e1]);
            assert(of_scope(BindingScope::User)(f2[i - e1]));
        } else if i < e3 {
            assert(all[i] == f3[i - e2]);
            assert(of_scope(BindingScope::Module)(f3[i - e2]));
        } else if i < e4 {
            assert(all[i] == f4[i - e3]);
            assert(of_scope(BindingScope::AppGlobal)(f4[i - e3]));
        } else {
            assert(all[i] == f5[i - e4]);
            assert(of_scope(BindingScope::AppFocused)(f5[i - e4]));
        }
    }
    assert forall|i: int| 0 <= i < bindings.len() implies all.contains(#[trigger] bindings[i]) by {
        let b = bindings[i];
        assert(of_scope(b.scope)(b));
        let f = bindings.filter(of_scope(b.scope));
        assert(f.contains(b));
        let k = choose|k: int| 0 <= k < f.len() && f[k] == b;
        match b.scope {
            BindingScope::System => {
                assert(all[k] == f0[k]);
            },
            BindingScope::Shell => {
                assert(all[e0 + k] == f1[k]);
            },
            BindingScope::User => {
                assert(all[e1 + k] == f2[k]);
            },
            BindingScope::Module => {
                assert(all[e2 + k] == f3[k]);
            },
            BindingScope::AppGlobal => {
                assert(all[e3 + k] == f4[k]);
            },
            BindingScope::AppFocused => {
                assert(all[e4 + k] == f5[k]);
            },
        }
    }
}

/// The block of a sequence of six in which a position lies.
spec fn block_of(i: int, e0: int, e1: int, e2: int, e3: int, e4: int) -> int {
    if i < e0 {
        0
    } else if i < e1 {
        1
    } else if i < e2 {
        2
    } else if i < e3 {
        3
    } else if i < e4 {
        4
    } else {
        5
    }
}

/// A global registration is in effect at once: a key press for it invokes a binding, and this
/// one where no other is invoked by it.
pub proof fn a_global_registration_takes_effect(
    m: ResolverModel,
    info: BindingInfo,
    modifiers: KeyBindingModifiers,
    key: Seq<char>,
)
    requires
        info.scope@ == "app_global"@,
        accelerator_hit(info.binding@, modifiers, key),
    ensures
        ({
            let after = ResolverModel { dynamic: m.dynamic.push(info), ..m };
            &&& after.resolved(modifiers, key) is Some
            &&& seqs::first_where(m.statics, static_hit(modifiers, key)) is None
                && seqs::first_where(m.dynamic, global_hit(modifiers, key)) is None
                ==> after.resolved(modifiers, key) == Some(
                from_dynamic(info, BindingScope::AppGlobal),
            )
        }),
{
    seqs::lemma_first_where_push(m.dynamic, global_hit(modifiers, key), info);
}

/// A registration for an application is in effect while the application has the focus, and not
/// while another or none has.
pub proof fn a_focused_registration_follows_the_focus(
    m: ResolverModel,
    info: BindingInfo,
    modifiers: KeyBindingModifiers,
    key: Seq<char>,
)
    requires
        info.scope@ == "app_focused"@,
        accelerator_hit(info.binding@, modifiers, key),
        m.resolved(modifiers, key) is None,
    ensures
        ({
            let after = ResolverModel { dynamic: m.dynamic.push(info), ..m };
            after.resolved(modifiers, key) == if m.focused == Some(info.app_id@) {
                Some(from_dynamic(info, BindingScope::AppFocused))
            } else {
                None
            }
        }),
{
    reveal_strlit("app_focused");
    reveal_strlit("app_global");
    assert("app_focused"@.len() != "app_global"@.len());
    seqs::lemma_first_where_push(m.dynamic, global_hit(modifiers, key), info);
    if m.focused is Some {
        seqs::lemma_first_where_push(
            m.dynamic,
            focused_hit(m.focused->0, modifiers, key),
            info,
        );
    }
}

/// A global registration wins over those of the focused application.
pub proof fn global_registrations_preempt_focused_ones(
    m: ResolverModel,
    modifiers: KeyBindingModifiers,
    key: Seq<char>,
)
    requires
        seqs::first_where(m.statics, static_hit(modifiers, key)) is None,
        seqs::first_where(m.dynamic, global_hit(modifiers, key)) is Some,
    ensures
        m.resolved(modifiers, key) matches Some(r) && r.scope == BindingScope::AppGlobal,
{
}

/// Whether an accelerator has all four modifiers as they are held, and the key, whatever the case.
pub open spec fn accelerates(
    binding: Seq<char>,
    modifiers: KeyBindingModifiers,
    key: Seq<char>,
) -> bool {
    let (named, named_key) = keybinding::accelerator(binding);
    &&& named.super_key == modifiers.super_key
    &&& named.shift == modifiers.shift
    &&& named.ctrl == modifiers.ctrl
    &&& named.alt == modifiers.alt
    &&& text::same_ignoring_ascii_case(named_key, key)
}

} // verus!
