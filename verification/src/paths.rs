//! Two questions about path strings, both answered by the standard library.

use std::path::Path;
use vstd::prelude::*;

verus! {

/// Whether `part` stands in `text` at position `at`.
pub open spec fn occurs_at(text: Seq<char>, part: Seq<char>, at: int) -> bool {
    0 <= at && at + part.len() <= text.len() && text.subrange(at, at + part.len()) == part
}

/// Whether `part` stands somewhere in `text`.
pub open spec fn has_infix(text: Seq<char>, part: Seq<char>) -> bool {
    exists|at: int| occurs_at(text, part, at)
}

/// What `Path::parent` makes of `path`: `None` where the path has no parent
/// (it is empty, or ends in a root), else the path without its last component.
pub uninterp spec fn parent_of(path: Seq<char>) -> Option<Seq<char>>;

/// Calls `str::contains` with a string as the pattern. Trusted: it answers
/// whether `part` occurs in `text`, as the documentation of `contains` says.
#[verifier::external_body]
pub(crate) fn contains(text: &str, part: &str) -> (r: bool)
    ensures
        r == has_infix(text@, part@),
{
    text.contains(part)
}

/// Calls `Path::parent` on the path that `path` spells and hands the result
/// back as a string. Trusted: the result is the one that [`parent_of`] names.
#[verifier::external_body]
pub(crate) fn parent(path: &str) -> (r: Option<String>)
    ensures
        r.deep_view() == parent_of(path@),
{
    Path::new(path).parent().and_then(|dir| dir.to_str()).map(|dir| dir.to_string())
}

} // verus!
