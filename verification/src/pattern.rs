//! Regular expression matching through the `regex` crate.

use vstd::prelude::*;

use crate::uri::opt_view;

verus! {

/// What `regex::Regex::new(pattern)` followed by `captures_iter(text)` gives:
/// for each match, in order, the text of capture group 1 when that group
/// took part in the match; `None` when the pattern does not compile.
pub uninterp spec fn regex_group1_matches(pattern: Seq<char>, text: Seq<char>) -> Option<Seq<Option<Seq<char>>>>;

/// `regex::Regex::new(pattern)`, then `captures_iter(text)`, keeping for each
/// match the text of capture group 1 (`Captures::get(1)`).
#[verifier::external_body]
pub(crate) fn captures_group1(pattern: &str, text: &str) -> (r: Option<Vec<Option<String>>>)
    ensures
        match r {
            Some(v) => regex_group1_matches(pattern@, text@) == Some(
                v@.map_values(|o: Option<String>| opt_view(o)),
            ),
            None => regex_group1_matches(pattern@, text@) is None,
        },
{
    match regex::Regex::new(pattern) {
        Ok(re) => Some(
            re.captures_iter(text).map(|c| c.get(1).map(|m| m.as_str().to_string())).collect(),
        ),
        Err(_) => None,
    }
}

} // verus!
