//! Regular expressions, through the `regex` crate.

use regex::Regex;
use vstd::prelude::*;

verus! {

/// What the `regex` crate finds for `pattern` in `haystack` with
/// `Regex::captures`: for the leftmost-first match, the text of each capture
/// group after the whole match (group 0), in the order of their opening
/// parentheses, `None` for a group that took no part in the match; `None`
/// when nothing matches (or `pattern` is no regular expression).
pub uninterp spec fn regex_captures(pattern: Seq<char>, haystack: Seq<char>) -> Option<Seq<Option<Seq<char>>>>;

/// `Regex::new(pattern)` then `captures(haystack)` of the `regex` crate, its
/// result taken group by group. What it finds is left to the crate (see
/// `regex_captures`); that a pattern which does not compile finds nothing
/// is this item's choice, as the library only passes patterns that compile.
#[verifier::external_body]
pub(crate) fn capture_groups(pattern: &str, haystack: &str) -> (r: Option<Vec<Option<String>>>)
    ensures
        r.deep_view() == regex_captures(pattern@, haystack@),
{
    match Regex::new(pattern) {
        Ok(re) => re.captures(haystack).map(
            |caps| caps.iter().skip(1).map(|group| group.map(|m| m.as_str().to_string())).collect(),
        ),
        Err(_) => None,
    }
}

} // verus!
