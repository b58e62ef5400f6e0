//! Regular-expression matching, through the `regex` crate.

use vstd::prelude::*;

verus! {

/// How the `regex` crate cuts `text` by the leftmost-first, non-overlapping
/// matches of `pattern`: the text before the first match, the first match,
/// the text between it and the next, and so on, ending with the text after
/// the last match. `None` where the pattern does not compile.
pub uninterp spec fn regex_split(pattern: Seq<char>, text: Seq<char>) -> Option<Seq<Seq<char>>>;

/// Relies on `regex::Regex::new` and `regex::Regex::find_iter`: the pieces of
/// `text` around each successive match of `pattern`, alternating gap and match.
#[verifier::external_body]
pub(crate) fn split_matches(pattern: &str, text: &str) -> (r: Option<Vec<String>>)
    ensures
        r.is_some() == regex_split(pattern@, text@).is_some(),
        r.is_some() ==> r.unwrap()@.map_values(|p: String| p@) == regex_split(pattern@, text@).unwrap(),
{
    let re = regex::Regex::new(pattern).ok()?;
    let mut pieces = Vec::new();
    let mut last: usize = 0;
    for m in re.find_iter(text) {
        pieces.push(text[last..m.start()].to_string());
        pieces.push(m.as_str().to_string());
        last = m.end();
    }
    pieces.push(text[last..].to_string());
    Some(pieces)
}

} // verus!
