//! Which windows float instead of being tiled.

use crate::config::layout;
use crate::config::layout::{WindowAction, WindowRule};
use crate::geometry::Size;
use crate::pattern;
use crate::pattern::{Pattern, PatternSet};
use crate::text;
use vstd::prelude::*;

verus! {

/// The types of X11 windows.
#[derive(Clone, Copy, Debug, PartialEq, Eq, Structural)]
pub enum WmWindowType {
    Desktop,
    Dock,
    Toolbar,
    Menu,
    Utility,
    Splash,
    Dialog,
    DropdownMenu,
    PopupMenu,
    Tooltip,
    Notification,
    Combo,
    Dnd,
    Normal,
}

/// What kind of window a client has mapped.
#[derive(Clone, Copy, Debug, PartialEq, Eq, Structural)]
pub enum WindowKind {
    Wayland { has_parent: bool },
    X11 { override_redirect: bool, popup: bool, window_type: Option<WmWindowType> },
}

/// Whether a window of this kind is a dialog.
pub open spec fn dialog_kind(kind: WindowKind) -> bool {
    match kind {
        WindowKind::Wayland { has_parent } => has_parent,
        WindowKind::X11 { override_redirect, popup, window_type } => override_redirect || popup
            || !(window_type is None || window_type == Some(WmWindowType::Normal) || window_type
            == Some(WmWindowType::Utility)),
    }
}

/// Whether a window is a dialog: by its kind, or because its size is fixed.
pub fn is_dialog(kind: WindowKind, min_size: Option<Size>, max_size: Option<Size>) -> (r: bool)
    ensures
        r == (dialog_kind(kind) || (min_size is Some && min_size == max_size)),
{
    let by_kind: bool = match kind {
        WindowKind::Wayland { has_parent } => has_parent,
        WindowKind::X11 { override_redirect, popup, window_type } => {
            let ordinary: bool = match window_type {
                None | Some(WmWindowType::Normal) | Some(WmWindowType::Utility) => true,
                _ => false,
            };
            override_redirect || popup || !ordinary
        },
    };
    if by_kind {
        return true;
    }
    match (min_size, max_size) {
        (Some(min), Some(max)) => min == max,
        _ => false,
    }
}

/// The first rule that matches a window: whether it makes the window float.
pub open spec fn ruling(
    rules: Seq<layout::RuleModel>,
    app_id: Seq<char>,
    title: Seq<char>,
    dialog: bool,
) -> Option<bool>
    decreases rules.len(),
{
    if rules.len() == 0 {
        None
    } else if rules[0].matcher.matches(app_id, title, dialog) {
        Some(rules[0].action == WindowAction::Float)
    } else {
        ruling(rules.skip(1), app_id, title, dialog)
    }
}

/// Whether the rules make a window float (`Some(true)`) or be tiled (`Some(false)`); none where
/// no rule matches. The first rule that matches decides.
pub fn check_window_rules(
    rules: &Vec<WindowRule>,
    app_id: &str,
    title: &str,
    dialog: bool,
) -> (r: Option<bool>)
    ensures
        r == ruling(layout::rule_models(rules@), app_id@, title@, dialog),
{
    let ghost all = layout::rule_models(rules@);
    let mut i: usize = 0;
    proof {
        assert(all.skip(0) =~= all);
    }
    while i < rules.len()
        invariant
            i <= rules@.len(),
            all == layout::rule_models(rules@),
            ruling(all, app_id@, title@, dialog) == ruling(
                all.skip(i as int),
                app_id@,
                title@,
                dialog,
            ),
        decreases rules@.len() - i,
    {
        proof {
            assert(all.skip(i as int)[0] == rules@[i as int]@);
            assert(all.skip(i as int).skip(1) =~= all.skip(i + 1));
        }
        if rules[i].matcher.matches(app_id, title, dialog) {
            return Some(rules[i].action == WindowAction::Float);
        }
        i += 1;
    }
    None
}

/// Windows that are not tiled, by patterns of their application and their title.
#[derive(Debug)]
pub struct ApplicationException {
    pub appid: String,
    pub title: String,
}

/// Compiled exceptions from tiling: the patterns at the same position belong together.
#[derive(Debug)]
pub struct TilingExceptions {
    app_ids: PatternSet,
    titles: PatternSet,
}

/// The patterns of an exception.
pub open spec fn exception_pair(e: ApplicationException) -> (Seq<char>, Seq<char>) {
    (e.appid@, e.title@)
}

/// The exceptions both of whose patterns compile.
pub open spec fn compiling(exceptions: Seq<ApplicationException>) -> Seq<(Seq<char>, Seq<char>)>
    decreases exceptions.len(),
{
    if exceptions.len() == 0 {
        seq![]
    } else {
        let e = exception_pair(exceptions.last());
        let before = compiling(exceptions.drop_last());
        if pattern::regex_compiles(e.0) && pattern::regex_compiles(e.1) {
            before.push(e)
        } else {
            before
        }
    }
}

/// The patterns of the applications.
pub open spec fn firsts(pairs: Seq<(Seq<char>, Seq<char>)>) -> Seq<Seq<char>> {
    pairs.map_values(|p: (Seq<char>, Seq<char>)| p.0)
}

/// The patterns of the titles.
pub open spec fn seconds(pairs: Seq<(Seq<char>, Seq<char>)>) -> Seq<Seq<char>> {
    pairs.map_values(|p: (Seq<char>, Seq<char>)| p.1)
}

impl View for TilingExceptions {
    type V = Seq<(Seq<char>, Seq<char>)>;

    closed spec fn view(&self) -> Seq<(Seq<char>, Seq<char>)> {
        Seq::new(self.app_ids@.len(), |i: int| (self.app_ids@[i], self.titles@[i]))
    }
}

impl TilingExceptions {
    #[verifier::type_invariant]
    spec fn inv(self) -> bool {
        self.app_ids@.len() == self.titles@.len()
    }

    /// The exceptions both of whose patterns compile; the others are passed over. None where the
    /// patterns that compile on their own do not compile together.
    pub fn new(exceptions: &Vec<ApplicationException>) -> (r: Option<TilingExceptions>)
        ensures
            ({
                let kept = compiling(exceptions@);
                match r {
                    Some(e) => e@ == kept,
                    None => !(pattern::regex_set_compiles(firsts(kept))
                        && pattern::regex_set_compiles(seconds(kept))),
                }
            }),
            r is Some ==> pattern::regex_set_compiles(firsts(compiling(exceptions@)))
                && pattern::regex_set_compiles(seconds(compiling(exceptions@))),
    {
        let ghost kept = compiling(exceptions@);
        let mut app_ids: Vec<String> = Vec::new();
        let mut titles: Vec<String> = Vec::new();
        let mut i: usize = 0;
        proof {
            assert(text::list_view(app_ids@) =~= firsts(compiling(exceptions@.take(0))));
            assert(text::list_view(titles@) =~= seconds(compiling(exceptions@.take(0))));
        }
        while i < exceptions.len()
            invariant
                i <= exceptions@.len(),
                text::list_view(app_ids@) == firsts(compiling(exceptions@.take(i as int))),
                text::list_view(titles@) == seconds(compiling(exceptions@.take(i as int))),
            decreases exceptions@.len() - i,
        {
            let ghost so_far = compiling(exceptions@.take(i as int));
            let ghost ids_before = app_ids@;
            let ghost titles_before = titles@;
            proof {
                assert(exceptions@.take(i + 1).drop_last() =~= exceptions@.take(i as int));
                assert(exceptions@.take(i + 1).last() == exceptions@[i as int]);
            }
            let e: &ApplicationException = &exceptions[i];
            if Pattern::new(e.appid.as_str()).is_some() && Pattern::new(
                e.title.as_str(),
            ).is_some() {
                app_ids.push(e.appid.clone());
                titles.push(e.title.clone());
                proof {
                    let pair = exception_pair(*e);
                    assert(text::list_view(app_ids@) =~= text::list_view(ids_before).push(e.appid@));
                    assert(text::list_view(titles@) =~= text::list_view(titles_before).push(
                        e.title@,
                    ));
                    assert(firsts(so_far.push(pair)) =~= firsts(so_far).push(pair.0));
                    assert(seconds(so_far.push(pair)) =~= seconds(so_far).push(pair.1));
                }
            }
            i += 1;
        }
        proof {
            assert(exceptions@.take(i as int) =~= exceptions@);
        }
        let app_ids: PatternSet = match PatternSet::new(app_ids) {
            Some(set) => set,
            None => return None,
        };
        let titles: PatternSet = match PatternSet::new(titles) {
            Some(set) => set,
            None => return None,
        };
        let r = TilingExceptions { app_ids, titles };
        proof {
            assert(r@ =~= kept) by {
                assert forall|j: int| 0 <= j < kept.len() implies r@[j] == kept[j] by {
                    assert(firsts(kept)[j] == kept[j].0);
                    assert(seconds(kept)[j] == kept[j].1);
                }
            }
        }
        Some(r)
    }
}

/// Whether one of the exceptions has a pattern of the application and one of the title that both
/// match.
pub fn has_floating_exception(
    exceptions: &TilingExceptions,
    app_id: &str,
    title: &str,
) -> (r: bool)
    ensures
        r == exists|i: int|
            0 <= i < exceptions@.len() && #[trigger] pattern::regex_set_finds(
                firsts(exceptions@),
                app_id@,
            )[i] && pattern::regex_set_finds(seconds(exceptions@), title@)[i],
{
    proof {
        use_type_invariant(exceptions);
        assert(firsts(exceptions@) =~= exceptions.app_ids@);
        assert(seconds(exceptions@) =~= exceptions.titles@);
    }
    let by_app: Vec<bool> = exceptions.app_ids.matches(app_id);
    let by_title: Vec<bool> = exceptions.titles.matches(title);
    let mut i: usize = 0;
    while i < by_app.len()
        invariant
            i <= by_app@.len(),
            by_app@.len() == by_title@.len(),
            by_app@.len() == exceptions@.len(),
            by_app@ == pattern::regex_set_finds(firsts(exceptions@), app_id@),
            by_title@ == pattern::regex_set_finds(seconds(exceptions@), title@),
            forall|j: int| 0 <= j < i ==> !(#[trigger] by_app@[j] && by_title@[j]),
        decreases by_app@.len() - i,
    {
        if by_app[i] && by_title[i] {
            assert(by_app@[i as int]);
            return true;
        }
        i += 1;
    }
    false
}

/// A rule decides only where no rule before it matches.
pub proof fn earlier_rules_take_precedence(
    first: layout::RuleModel,
    rest: Seq<layout::RuleModel>,
    app_id: Seq<char>,
    title: Seq<char>,
    dialog: bool,
)
    ensures
        ruling(seq![first] + rest, app_id, title, dialog) == if first.matcher.matches(
            app_id,
            title,
            dialog,
        ) {
            Some(first.action == WindowAction::Float)
        } else {
            ruling(rest, app_id, title, dialog)
        },
{
    assert((seq![first] + rest).skip(1) =~= rest);
}

} // verus!
