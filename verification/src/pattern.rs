//! Regular expressions, by the crate `regex`.

use crate::text;
use vstd::prelude::*;

verus! {

/// Whether `regex::Regex::new` accepts a pattern.
pub uninterp spec fn regex_compiles(pattern: Seq<char>) -> bool;

/// Whether `regex::Regex::is_match` finds a match of a pattern anywhere in a text.
pub uninterp spec fn regex_matches(pattern: Seq<char>, text: Seq<char>) -> bool;

/// For each pattern of a list whether `regex::RegexSet::matches` finds a match of it anywhere in a
/// text.
pub uninterp spec fn regex_set_finds(patterns: Seq<Seq<char>>, text: Seq<char>) -> Seq<bool>;

/// Whether `regex::RegexSet::new` accepts a list of patterns.
pub uninterp spec fn regex_set_compiles(patterns: Seq<Seq<char>>) -> bool;

/// `regex::Regex::new` of the crate `regex`: whether the pattern is accepted, which depends on
/// the pattern alone. Which patterns are is left to the crate.
#[verifier::external_body]
fn regex_new(pattern: &str) -> (r: bool)
    ensures
        r == regex_compiles(pattern@),
{
    regex::Regex::new(pattern).is_ok()
}

/// `regex::Regex::is_match` of the crate `regex`: whether the pattern matches somewhere in the
/// text, which depends on the two alone. What matches is left to the crate.
#[verifier::external_body]
fn regex_is_match(pattern: &str, text: &str) -> (r: bool)
    requires
        regex_compiles(pattern@),
    ensures
        r == regex_matches(pattern@, text@),
{
    regex::Regex::new(pattern).unwrap().is_match(text)
}

/// `regex::RegexSet::new` of the crate `regex`: whether the patterns are accepted together, which
/// depends on them alone. That they are accepted one by one is not enough: there is a limit on
/// the size of the whole.
#[verifier::external_body]
fn regex_set_new(patterns: &Vec<String>) -> (r: bool)
    ensures
        r == regex_set_compiles(text::list_view(patterns@)),
{
    regex::RegexSet::new(patterns).is_ok()
}

/// `regex::RegexSet::matches` of the crate `regex`: for each pattern of the set whether it
/// matches somewhere in the text, which depends on the patterns and the text alone. What matches
/// is left to the crate.
#[verifier::external_body]
fn regex_set_matches(patterns: &Vec<String>, text: &str) -> (r: Vec<bool>)
    requires
        regex_set_compiles(text::list_view(patterns@)),
    ensures
        r@ == regex_set_finds(text::list_view(patterns@), text@),
        r@.len() == patterns@.len(),
{
    let matches = regex::RegexSet::new(patterns).unwrap().matches(text);
    (0..patterns.len()).map(|i| matches.matched(i)).collect()
}

/// A regular expression that compiles.
#[derive(Debug)]
pub struct Pattern {
    source: String,
}

impl View for Pattern {
    type V = Seq<char>;

    closed spec fn view(&self) -> Seq<char> {
        self.source@
    }
}

impl Pattern {
    #[verifier::type_invariant]
    spec fn inv(self) -> bool {
        regex_compiles(self.source@)
    }

    /// The pattern written as `source`; none where it does not compile.
    pub fn new(source: &str) -> (r: Option<Pattern>)
        ensures
            match r {
                Some(pattern) => regex_compiles(source@) && pattern@ == source@,
                None => !regex_compiles(source@),
            },
    {
        if regex_new(source) {
            Some(Pattern { source: source.to_owned() })
        } else {
            None
        }
    }

    /// Whether the pattern matches somewhere in the text.
    pub fn is_match(&self, text: &str) -> (r: bool)
        ensures
            r == regex_matches(self@, text@),
    {
        proof {
            use_type_invariant(self);
        }
        regex_is_match(self.source.as_str(), text)
    }
}

/// A list of regular expressions that compile together.
#[derive(Debug)]
pub struct PatternSet {
    sources: Vec<String>,
}

impl View for PatternSet {
    type V = Seq<Seq<char>>;

    closed spec fn view(&self) -> Seq<Seq<char>> {
        text::list_view(self.sources@)
    }
}

impl PatternSet {
    #[verifier::type_invariant]
    spec fn inv(self) -> bool {
        regex_set_compiles(text::list_view(self.sources@))
    }

    /// The set of the given patterns; none where they do not compile together.
    pub fn new(sources: Vec<String>) -> (r: Option<PatternSet>)
        ensures
            match r {
                Some(set) => regex_set_compiles(text::list_view(sources@)) && set@
                    == text::list_view(sources@),
                None => !regex_set_compiles(text::list_view(sources@)),
            },
    {
        if regex_set_new(&sources) {
            Some(PatternSet { sources })
        } else {
            None
        }
    }

    /// For each pattern whether it matches somewhere in the text.
    pub fn matches(&self, text: &str) -> (r: Vec<bool>)
        ensures
            r@ == regex_set_finds(self@, text@),
            r@.len() == self@.len(),
    {
        proof {
            use_type_invariant(self);
        }
        regex_set_matches(&self.sources, text)
    }
}

} // verus!
