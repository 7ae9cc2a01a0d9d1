//! Paths of files.

use crate::text;
use crate::text::to_chars;
use vstd::prelude::*;
use vstd::string::StringExecFns;

verus! {

/// `std::path::Path::parent`: what comes before the last component of a path, or none where the
/// path is empty or ends in a root.
pub uninterp spec fn path_parent(path: Seq<char>) -> Option<Seq<char>>;

/// `std::path::Path::parent` of std, named `path_parent`: how a path is taken apart into its
/// components is left to std.
#[verifier::external_body]
pub(crate) fn parent_of(path: &str) -> (r: Option<String>)
    ensures
        text::optional_view(r) == path_parent(path@),
{
    std::path::Path::new(path).parent().map(|p| p.to_string_lossy().into_owned())
}

/// A path adjoined to another: it takes the place of that one where it starts at the root, and
/// else follows it, behind a separator.
pub open spec fn joined(base: Seq<char>, rest: Seq<char>) -> Seq<char> {
    if rest.len() > 0 && rest[0] == '/' {
        rest
    } else if base.len() == 0 || base.last() == '/' {
        base + rest
    } else {
        base + seq!['/'] + rest
    }
}

/// A path adjoined to another.
pub fn join_paths(base: &str, rest: &str) -> (r: String)
    ensures
        r@ == joined(base@, rest@),
{
    let before: Vec<char> = to_chars(base);
    let after: Vec<char> = to_chars(rest);
    if after.len() > 0 && after[0] == '/' {
        return String::from_str(rest);
    }
    let mut out: String = String::from_str(base);
    if before.len() > 0 && before[before.len() - 1] != '/' {
        out.append("/");
        proof {
            reveal_strlit("/");
            assert("/"@ =~= seq!['/']);
        }
    }
    out.append(rest);
    out
}

} // verus!
