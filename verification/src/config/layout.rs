//! The layout of windows: gaps, and rules on which windows float.

use crate::config::value;
use crate::config::value::{
    get_array, get_bool, get_integer, get_str, get_table, TomlEntry, TomlModel, TomlValue,
};
use crate::pattern;
use crate::pattern::Pattern;
use crate::text;
use crate::text::str_eq;
use vstd::prelude::*;

verus! {

/// What to do with a window that a rule matches.
#[derive(Clone, Copy, Debug, PartialEq, Eq, Structural)]
pub enum WindowAction {
    Float,
    Tile,
}

/// Which windows a rule matches. A part that is missing matches every window.
#[derive(Debug)]
pub struct WindowMatch {
    /// Pattern of the application's identifier.
    pub app_id: Option<Pattern>,
    /// Pattern of the window's title.
    pub title: Option<Pattern>,
    /// Type of the window, such as `dialog`.
    pub window_type: Option<String>,
}

/// A rule on whether windows float.
#[derive(Debug)]
pub struct WindowRule {
    pub matcher: WindowMatch,
    pub action: WindowAction,
}

/// The layout of tiled windows.
#[derive(Debug)]
pub struct LayoutConfig {
    /// Gap between windows, in pixels.
    pub inner_gap: i32,
    /// Gap between windows and the edges of the screen, in pixels.
    pub outer_gap: i32,
    /// Whether a workspace with a single window has no gaps.
    pub smart_gaps: bool,
    pub window_rules: Vec<WindowRule>,
}

/// The model of which windows a rule matches.
#[verifier::ext_equal]
pub struct MatchModel {
    pub app_id: Option<Seq<char>>,
    pub title: Option<Seq<char>>,
    pub window_type: Option<Seq<char>>,
}

/// The model of a rule.
#[verifier::ext_equal]
pub struct RuleModel {
    pub matcher: MatchModel,
    pub action: WindowAction,
}

/// The model of a layout.
#[verifier::ext_equal]
pub struct LayoutModel {
    pub inner_gap: i32,
    pub outer_gap: i32,
    pub smart_gaps: bool,
    pub window_rules: Seq<RuleModel>,
}

/// The model of an optional pattern.
pub open spec fn pattern_view(p: Option<Pattern>) -> Option<Seq<char>> {
    match p {
        Some(pattern) => Some(pattern@),
        None => None,
    }
}

impl View for WindowMatch {
    type V = MatchModel;

    open spec fn view(&self) -> MatchModel {
        MatchModel {
            app_id: pattern_view(self.app_id),
            title: pattern_view(self.title),
            window_type: text::optional_view(self.window_type),
        }
    }
}

impl View for WindowRule {
    type V = RuleModel;

    open spec fn view(&self) -> RuleModel {
        RuleModel { matcher: self.matcher@, action: self.action }
    }
}

impl View for LayoutConfig {
    type V = LayoutModel;

    open spec fn view(&self) -> LayoutModel {
        LayoutModel {
            inner_gap: self.inner_gap,
            outer_gap: self.outer_gap,
            smart_gaps: self.smart_gaps,
            window_rules: rule_models(self.window_rules@),
        }
    }
}

/// The models of a list of rules.
pub open spec fn rule_models(rules: Seq<WindowRule>) -> Seq<RuleModel> {
    rules.map_values(|r: WindowRule| r@)
}

/// The layout that holds where nothing is configured.
pub open spec fn default_layout() -> LayoutModel {
    LayoutModel { inner_gap: 8, outer_gap: 8, smart_gaps: true, window_rules: seq![] }
}

impl Default for LayoutConfig {
    fn default() -> (r: LayoutConfig)
        ensures
            r@ == default_layout(),
    {
        let r = LayoutConfig {
            inner_gap: 8,
            outer_gap: 8,
            smart_gaps: true,
            window_rules: Vec::new(),
        };
        assert(r@.window_rules =~= seq![]);
        r
    }
}

impl MatchModel {
    /// Whether a window is matched.
    pub open spec fn matches(self, app_id: Seq<char>, title: Seq<char>, is_dialog: bool) -> bool {
        &&& self.window_type == Some("dialog"@) ==> is_dialog
        &&& self.app_id matches Some(p) ==> pattern::regex_matches(p, app_id)
        &&& self.title matches Some(p) ==> pattern::regex_matches(p, title)
    }
}

impl WindowMatch {
    /// Whether a window is matched.
    pub fn matches(&self, app_id: &str, title: &str, is_dialog: bool) -> (r: bool)
        ensures
            r == self@.matches(app_id@, title@, is_dialog),
    {
        if let Some(window_type) = &self.window_type {
            if str_eq(window_type.as_str(), "dialog") && !is_dialog {
                return false;
            }
        }
        if let Some(p) = &self.app_id {
            if !p.is_match(app_id) {
                return false;
            }
        }
        if let Some(p) = &self.title {
            if !p.is_match(title) {
                return false;
            }
        }
        true
    }
}

/// The pattern under a key; none where there is no text or it does not compile.
pub open spec fn pattern_at(entries: Seq<(Seq<char>, TomlModel)>, key: Seq<char>) -> Option<
    Seq<char>,
> {
    match value::text_at(entries, key) {
        Some(s) if pattern::regex_compiles(s) => Some(s),
        _ => None,
    }
}

/// The pattern under a key.
fn get_pattern(entries: &Vec<TomlEntry>, key: &str) -> (r: Option<Pattern>)
    ensures
        pattern_view(r) == pattern_at(value::entries_model(entries@), key@),
{
    match get_str(entries, key) {
        Some(s) => Pattern::new(s),
        None => None,
    }
}

/// The action named by a text.
pub open spec fn action_named(name: Option<Seq<char>>) -> Option<WindowAction> {
    if name == Some("float"@) {
        Some(WindowAction::Float)
    } else if name == Some("tile"@) {
        Some(WindowAction::Tile)
    } else {
        None
    }
}

/// The rule that a value describes: a table with an action and a table of what it matches. None
/// where one of them is missing.
pub open spec fn rule_of(item: TomlModel) -> Option<RuleModel> {
    match item {
        TomlModel::Table(rule) => match (
            action_named(value::text_at(rule, "action"@)),
            value::table_at(rule, "match"@),
        ) {
            (Some(action), Some(m)) => Some(
                RuleModel {
                    matcher: MatchModel {
                        app_id: pattern_at(m, "app_id"@),
                        title: pattern_at(m, "title"@),
                        window_type: value::text_at(m, "window_type"@),
                    },
                    action,
                },
            ),
            _ => None,
        },
        _ => None,
    }
}

/// The rules that the values of an array describe; values that describe none are passed over.
pub open spec fn rules_of(items: Seq<TomlModel>) -> Seq<RuleModel>
    decreases items.len(),
{
    if items.len() == 0 {
        seq![]
    } else {
        match rule_of(items.last()) {
            Some(rule) => rules_of(items.drop_last()).push(rule),
            None => rules_of(items.drop_last()),
        }
    }
}

/// The layout of a document: the default one, with what its table `layout` gives.
pub open spec fn layout_of(document: Seq<(Seq<char>, TomlModel)>) -> LayoutModel {
    match value::table_at(document, "layout"@) {
        Some(section) => LayoutModel {
            inner_gap: match value::integer_at(section, "inner_gap"@) {
                Some(n) => n as i32,
                None => default_layout().inner_gap,
            },
            outer_gap: match value::integer_at(section, "outer_gap"@) {
                Some(n) => n as i32,
                None => default_layout().outer_gap,
            },
            smart_gaps: match value::bool_at(section, "smart_gaps"@) {
                Some(b) => b,
                None => default_layout().smart_gaps,
            },
            window_rules: match value::array_at(section, "window_rules"@) {
                Some(items) => rules_of(items),
                None => seq![],
            },
        },
        None => default_layout(),
    }
}

/// The rule that a value describes.
fn parse_rule(item: &TomlValue) -> (r: Option<WindowRule>)
    ensures
        match r {
            Some(rule) => rule_of(item.model()) == Some(rule@),
            None => rule_of(item.model()) is None,
        },
{
    let rule: &Vec<TomlEntry> = match item.as_table() {
        Some(rule) => rule,
        None => return None,
    };
    let action: WindowAction = match get_str(rule, "action") {
        Some(name) => if str_eq(name, "float") {
            WindowAction::Float
        } else if str_eq(name, "tile") {
            WindowAction::Tile
        } else {
            return None;
        },
        None => return None,
    };
    match get_table(rule, "match") {
        Some(m) => {
            let window_type: Option<String> = match get_str(m, "window_type") {
                Some(s) => Some(s.to_owned()),
                None => None,
            };
            let matcher = WindowMatch {
                app_id: get_pattern(m, "app_id"),
                title: get_pattern(m, "title"),
                window_type,
            };
            Some(WindowRule { matcher, action })
        },
        None => None,
    }
}

/// The rules that the values of an array describe.
fn parse_rules(items: &Vec<TomlValue>) -> (r: Vec<WindowRule>)
    ensures
        rule_models(r@) == rules_of(value::items_model(items@)),
{
    let ghost all = value::items_model(items@);
    let mut rules: Vec<WindowRule> = Vec::new();
    let mut i: usize = 0;
    proof {
        assert(rule_models(rules@) =~= rules_of(all.take(0)));
    }
    while i < items.len()
        invariant
            i <= items@.len(),
            all == value::items_model(items@),
            rule_models(rules@) == rules_of(all.take(i as int)),
        decreases items@.len() - i,
    {
        proof {
            assert(all.take(i + 1).drop_last() =~= all.take(i as int));
            assert(all.take(i + 1).last() == items@[i as int].model());
        }
        let ghost before = rules@;
        if let Some(rule) = parse_rule(&items[i]) {
            rules.push(rule);
            assert(rule_models(rules@) =~= rule_models(before).push(rule@));
        }
        i += 1;
    }
    proof {
        assert(all.take(i as int) =~= all);
    }
    rules
}

/// The layout of a document.
pub fn parse_layout_config(table: &Vec<TomlEntry>) -> (r: LayoutConfig)
    ensures
        r@ == layout_of(value::entries_model(table@)),
{
    let mut layout: LayoutConfig = LayoutConfig::default();
    let section: &Vec<TomlEntry> = match get_table(table, "layout") {
        Some(section) => section,
        None => return layout,
    };
    if let Some(n) = get_integer(section, "inner_gap") {
        layout.inner_gap = n as i32;
    }
    if let Some(n) = get_integer(section, "outer_gap") {
        layout.outer_gap = n as i32;
    }
    if let Some(b) = get_bool(section, "smart_gaps") {
        layout.smart_gaps = b;
    }
    if let Some(items) = get_array(section, "window_rules") {
        layout.window_rules = parse_rules(items);
    }
    layout
}

/// A rule whose pattern for the title does not compile matches windows of any title.
pub proof fn a_broken_pattern_matches_everything(
    m: Seq<(Seq<char>, TomlModel)>,
    pattern: Seq<char>,
    app_id: Seq<char>,
    title: Seq<char>,
    other: Seq<char>,
    is_dialog: bool,
)
    requires
        value::text_at(m, "title"@) == Some(pattern),
        !pattern::regex_compiles(pattern),
    ensures
        ({
            let matcher = MatchModel {
                app_id: pattern_at(m, "app_id"@),
                title: pattern_at(m, "title"@),
                window_type: value::text_at(m, "window_type"@),
            };
            matcher.matches(app_id, title, is_dialog) == matcher.matches(app_id, other, is_dialog)
        }),
{
}

} // verus!
