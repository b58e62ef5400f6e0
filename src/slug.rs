//! Heading text to anchor id.
//!
//! The text is lowercased; then every character that is alphanumeric, `-` or
//! `_` is kept and every other one (spaces and punctuation alike) is dropped.
//! So `"Hello, World!"` becomes `"helloworld"`. Equal texts give equal anchors:
//! nothing is added to tell two headings of the same text apart.

use vstd::prelude::*;
use crate::text::{chars_of, string_of};

verus! {

/// What `str::to_lowercase` returns for a string.
pub uninterp spec fn lower_of(s: Seq<char>) -> Seq<char>;

/// Whether `char::is_alphanumeric` holds of a character.
pub uninterp spec fn alnum(c: char) -> bool;

/// Relies on `str::to_lowercase`: the result depends on the characters alone,
/// and the empty string stays empty.
#[verifier::external_body]
fn lowercase(s: &str) -> (r: String)
    ensures
        r@ == lower_of(s@),
        s@.len() == 0 ==> r@.len() == 0,
{
    s.to_lowercase()
}

/// Relies on `char::is_alphanumeric`.
#[verifier::external_body]
fn is_alnum(c: char) -> (r: bool)
    ensures
        r == alnum(c),
{
    c.is_alphanumeric()
}

/// A character that survives into an anchor.
pub open spec fn slug_char(c: char) -> bool {
    alnum(c) || c == '-' || c == '_'
}

/// The anchor made from already lowercased text: its characters that
/// survive, in order.
pub open spec fn slug_of(lowered: Seq<char>) -> Seq<char>
    decreases lowered.len(),
{
    if lowered.len() == 0 {
        Seq::empty()
    } else {
        let rest = slug_of(lowered.drop_last());
        if slug_char(lowered.last()) {
            rest.push(lowered.last())
        } else {
            rest
        }
    }
}

/// The anchor of a heading text.
pub open spec fn anchor_of(text: Seq<char>) -> Seq<char> {
    slug_of(lower_of(text))
}

/// Filtering is idempotent: applied to an anchor, it gives the same anchor back.
pub proof fn lemma_slug_idempotent(s: Seq<char>)
    ensures
        slug_of(slug_of(s)) == slug_of(s),
    decreases s.len(),
{
    if s.len() > 0 {
        lemma_slug_idempotent(s.drop_last());
        let rest = slug_of(s.drop_last());
        if slug_char(s.last()) {
            assert(rest.push(s.last()).drop_last() == rest);
        }
    }
}

/// The anchor is a function of the heading text alone: two calls on equal
/// texts give equal anchors, whatever heading they came from.
pub proof fn lemma_anchor_deterministic(t1: Seq<char>, t2: Seq<char>)
    requires
        t1 == t2,
    ensures
        anchor_of(t1) == anchor_of(t2),
{
}

/// Keeps the characters of lowercased text that may stand in an anchor.
pub fn slugify_lowered(lowered: &str) -> (r: String)
    ensures
        r@ == slug_of(lowered@),
{
    let cs = chars_of(lowered);
    let mut out: Vec<char> = Vec::new();
    let mut i: usize = 0;
    while i < cs.len()
        invariant
            i <= cs@.len(),
            cs@ == lowered@,
            out@ == slug_of(cs@.subrange(0, i as int)),
        decreases cs@.len() - i,
    {
        let c = cs[i];
        if is_alnum(c) || c == '-' || c == '_' {
            out.push(c);
        }
        i = i + 1;
        assert(cs@.subrange(0, i as int).drop_last() == cs@.subrange(0, i - 1));
    }
    assert(cs@.subrange(0, cs@.len() as int) == cs@);
    string_of(&out)
}

/// The anchor id of a heading text.
pub fn slugify(text: &str) -> (r: String)
    ensures
        r@ == anchor_of(text@),
{
    let lowered = lowercase(text);
    slugify_lowered(lowered.as_str())
}

} // verus!
