//! What a document says of the layout, and which windows its rules concern.

use crate::config::layout;
use crate::config::layout::{MatchModel, RuleModel, WindowAction};
use crate::config::value;
use crate::config::value::TomlModel;
use crate::pattern;
use crate::shell::layout::{ApplicationException, WindowKind, WmWindowType};
use vstd::prelude::*;

verus! {

/// Each key of the table `layout` sets what it names, and what is not given stays at 8 pixels of
/// either gap, gaps that vanish around a single window, and no rules.
pub proof fn each_key_of_the_layout_is_read(
    document: Seq<(Seq<char>, TomlModel)>,
    section: Seq<(Seq<char>, TomlModel)>,
    n: i64,
    b: bool,
    items: Seq<TomlModel>,
)
    requires
        value::lookup(document, "layout"@) == Some(TomlModel::Table(section)),
    ensures
        ({
            let m = layout::layout_of(document);
            let fits = i32::MIN <= n <= i32::MAX;
            &&& value::lookup(section, "inner_gap"@) == Some(TomlModel::Integer(n)) && fits
                ==> m.inner_gap == n
            &&& value::lookup(section, "inner_gap"@) is None ==> m.inner_gap == 8
            &&& value::lookup(section, "outer_gap"@) == Some(TomlModel::Integer(n)) && fits
                ==> m.outer_gap == n
            &&& value::lookup(section, "outer_gap"@) is None ==> m.outer_gap == 8
            &&& value::lookup(section, "smart_gaps"@) == Some(TomlModel::Boolean(b))
                ==> m.smart_gaps == b
            &&& value::lookup(section, "smart_gaps"@) is None ==> m.smart_gaps
            &&& value::lookup(section, "window_rules"@) == Some(TomlModel::Array(items))
                ==> m.window_rules == layout::rules_of(items)
            &&& value::lookup(section, "window_rules"@) is None ==> m.window_rules.len() == 0
        }),
{
}

/// A document without a table `layout` leaves all as it is by default.
pub proof fn documents_without_a_layout_change_nothing(document: Seq<(Seq<char>, TomlModel)>)
    requires
        value::lookup(document, "layout"@) is None,
    ensures
        layout::layout_of(document).inner_gap == 8,
        layout::layout_of(document).outer_gap == 8,
        layout::layout_of(document).smart_gaps,
        layout::layout_of(document).window_rules.len() == 0,
{
}

/// A list of rules keeps the order of those that it describes, and passes over the rest.
pub proof fn rules_keep_their_order(items: Seq<TomlModel>, item: TomlModel)
    ensures
        layout::rules_of(seq![]) == Seq::<RuleModel>::empty(),
        layout::rule_of(item) matches Some(rule) ==> layout::rules_of(items.push(item))
            == layout::rules_of(items).push(rule),
        layout::rule_of(item) is None ==> layout::rules_of(items.push(item)) == layout::rules_of(
            items,
        ),
{
    assert(items.push(item).drop_last() =~= items);
}

/// A rule is a table with one of the actions `float` and `tile` and a table of what it matches;
/// of that each text is taken, a pattern only where it compiles.
pub proof fn rules_are_read(
    rule: Seq<(Seq<char>, TomlModel)>,
    m: Seq<(Seq<char>, TomlModel)>,
    word: Seq<char>,
    float: bool,
)
    requires
        value::lookup(rule, "action"@) == Some(TomlModel::Text(if float {
            "float"@
        } else {
            "tile"@
        })),
        value::lookup(rule, "match"@) == Some(TomlModel::Table(m)),
    ensures
        layout::rule_of(TomlModel::Table(rule)) matches Some(r) && {
            &&& r.action == WindowAction::Float <==> float
            &&& value::lookup(m, "app_id"@) == Some(TomlModel::Text(word)) ==> r.matcher.app_id
                == if pattern::regex_compiles(word) {
                Some(word)
            } else {
                None
            }
            &&& value::lookup(m, "app_id"@) is None ==> r.matcher.app_id is None
            &&& value::lookup(m, "title"@) == Some(TomlModel::Text(word)) ==> r.matcher.title
                == if pattern::regex_compiles(word) {
                Some(word)
            } else {
                None
            }
            &&& value::lookup(m, "title"@) is None ==> r.matcher.title is None
            &&& value::lookup(m, "window_type"@) == Some(TomlModel::Text(word))
                ==> r.matcher.window_type == Some(word)
            &&& value::lookup(m, "window_type"@) is None ==> r.matcher.window_type is None
        },
{
    reveal_strlit("float");
    reveal_strlit("tile");
    assert("float"@.len() == 5 && "tile"@.len() == 4);
}

/// A rule lacks nothing: without an action that is known, or without a table of what it matches,
/// there is none.
pub proof fn incomplete_rules_are_none(rule: Seq<(Seq<char>, TomlModel)>, word: Seq<char>)
    ensures
        value::lookup(rule, "match"@) is None ==> layout::rule_of(TomlModel::Table(rule)) is None,
        value::lookup(rule, "action"@) is None ==> layout::rule_of(TomlModel::Table(rule)) is None,
        value::lookup(rule, "action"@) == Some(TomlModel::Text(word)) && word != "float"@ && word
            != "tile"@ ==> layout::rule_of(TomlModel::Table(rule)) is None,
{
}

/// A window is matched where each part that the rule has fits it, and by a rule without parts
/// always.
pub proof fn every_part_of_a_rule_has_to_fit(
    m: MatchModel,
    app_id: Seq<char>,
    title: Seq<char>,
    dialog: bool,
)
    ensures
        m.app_id is None && m.title is None && m.window_type is None ==> m.matches(
            app_id,
            title,
            dialog,
        ),
        m.app_id matches Some(p) ==> !pattern::regex_matches(p, app_id) ==> !m.matches(
            app_id,
            title,
            dialog,
        ),
        m.title matches Some(p) ==> !pattern::regex_matches(p, title) ==> !m.matches(
            app_id,
            title,
            dialog,
        ),
        m.window_type == Some("dialog"@) && !dialog ==> !m.matches(app_id, title, dialog),
        m.app_id is None && m.title is None && (dialog || m.window_type != Some("dialog"@))
            ==> m.matches(app_id, title, dialog),
        m.app_id is Some && pattern::regex_matches(m.app_id->0, app_id) && m.title is Some
            && pattern::regex_matches(m.title->0, title) && dialog ==> m.matches(
            app_id,
            title,
            dialog,
        ),
        m.app_id is Some && pattern::regex_matches(m.app_id->0, app_id) && m.title is None
            && m.window_type is None ==> m.matches(app_id, title, dialog),
        m.title is Some && pattern::regex_matches(m.title->0, title) && m.app_id is None
            && m.window_type is None ==> m.matches(app_id, title, dialog),
{
}

/// The first rule that matches a window decides: it floats where the rule says so and is tiled
/// where it does not. Where none matches, nothing is decided.
pub proof fn the_first_rule_that_matches_decides(
    rules: Seq<RuleModel>,
    app_id: Seq<char>,
    title: Seq<char>,
    dialog: bool,
    k: int,
)
    ensures
        0 <= k < rules.len() && rules[k].matcher.matches(app_id, title, dialog) && (forall|i: int|
            0 <= i < k ==> !(#[trigger] rules[i]).matcher.matches(app_id, title, dialog)) ==> {
            &&& rules[k].action == WindowAction::Float ==> crate::shell::layout::ruling(
                rules,
                app_id,
                title,
                dialog,
            ) == Some(true)
            &&& rules[k].action == WindowAction::Tile ==> crate::shell::layout::ruling(
                rules,
                app_id,
                title,
                dialog,
            ) == Some(false)
        },
        (forall|i: int|
            0 <= i < rules.len() ==> !(#[trigger] rules[i]).matcher.matches(app_id, title, dialog))
            ==> crate::shell::layout::ruling(rules, app_id, title, dialog) is None,
    decreases rules.len(),
{
    if rules.len() > 0 && !rules[0].matcher.matches(app_id, title, dialog) {
        let rest = rules.skip(1);
        assert forall|i: int| 0 <= i < rest.len() implies #[trigger] rest[i] == rules[i + 1] by {}
        the_first_rule_that_matches_decides(rest, app_id, title, dialog, k - 1);
    }
}

/// A window of Wayland is a dialog by having a parent; one of X11 by bypassing the window
/// manager, by being a popup, or by its type, unless that is missing, normal or a utility.
pub proof fn dialogs_are_known_by_their_kind(
    has_parent: bool,
    override_redirect: bool,
    popup: bool,
    window_type: Option<WmWindowType>,
)
    ensures
        crate::shell::layout::dialog_kind(WindowKind::Wayland { has_parent }) == has_parent,
        ({
            let dialog = crate::shell::layout::dialog_kind(
                WindowKind::X11 { override_redirect, popup, window_type },
            );
            &&& override_redirect || popup ==> dialog
            &&& !override_redirect && !popup ==> match window_type {
                None => !dialog,
                Some(WmWindowType::Normal) => !dialog,
                Some(WmWindowType::Utility) => !dialog,
                Some(WmWindowType::Dialog) => dialog,
                Some(WmWindowType::Splash) => dialog,
                Some(_) => dialog,
            }
        }),
{
}

/// Of the exceptions from tiling those are kept, in their order, both of whose patterns compile;
/// their patterns stay together.
pub proof fn exceptions_that_compile_are_kept(
    exceptions: Seq<ApplicationException>,
    e: ApplicationException,
)
    ensures
        ({
            let before = crate::shell::layout::compiling(exceptions);
            let after = crate::shell::layout::compiling(exceptions.push(e));
            if pattern::regex_compiles(e.appid@) && pattern::regex_compiles(e.title@) {
                &&& after.len() == before.len() + 1
                &&& after.drop_last() == before
                &&& crate::shell::layout::firsts(after).last() == e.appid@
                &&& crate::shell::layout::seconds(after).last() == e.title@
            } else {
                after == before
            }
        }),
        crate::shell::layout::compiling(seq![]).len() == 0,
{
    assert(exceptions.push(e).drop_last() =~= exceptions);
    let before = crate::shell::layout::compiling(exceptions);
    let after = crate::shell::layout::compiling(exceptions.push(e));
    if pattern::regex_compiles(e.appid@) && pattern::regex_compiles(e.title@) {
        assert(after.drop_last() =~= before);
    }
}

} // verus!
