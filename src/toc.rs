//! The table of contents: one entry per heading, in document order.

use vstd::prelude::*;
use crate::text::{chars_of, string_of, push_all};
use crate::render::{MdEvent, events_of, gfm, gfm_extensions, document_events};
use crate::slug::{anchor_of, slugify};
use crate::markdown::{heading_parts, heading_with_id, tags_stripped, with_id};

verus! {

/// A heading of the document: its level, its plain text, and the anchor
/// that links to it.
#[derive(Clone, Debug)]
pub struct TocEntry {
    pub level: u8,
    pub text: String,
    pub anchor: String,
}

impl View for TocEntry {
    type V = (u8, Seq<char>, Seq<char>);

    open spec fn view(&self) -> (u8, Seq<char>, Seq<char>) {
        (self.level, self.text@, self.anchor@)
    }
}

/// The text and code content inside the node open at `j` with `depth`
/// nodes still to close, up to where the last of them closes.
pub open spec fn text_from(evs: Seq<MdEvent>, j: int, depth: nat) -> Seq<char>
    decreases evs.len() - j,
{
    if j < 0 || j >= evs.len() || depth == 0 {
        Seq::empty()
    } else {
        match evs[j] {
            MdEvent::OpenText(t) => t@ + text_from(evs, j + 1, depth + 1),
            MdEvent::OpenCode(c) => c@ + text_from(evs, j + 1, depth + 1),
            MdEvent::Close => text_from(evs, j + 1, (depth - 1) as nat),
            _ => text_from(evs, j + 1, depth + 1),
        }
    }
}

/// The entries for the headings that open at or after `i`: level, the plain
/// text inside the heading, and its anchor.
pub open spec fn toc_from(evs: Seq<MdEvent>, i: int) -> Seq<(u8, Seq<char>, Seq<char>)>
    decreases evs.len() - i,
{
    if i < 0 || i >= evs.len() {
        Seq::empty()
    } else {
        match evs[i] {
            MdEvent::OpenHeading(level) => {
                let t = text_from(evs, i + 1, 1);
                seq![(level, t, anchor_of(t))] + toc_from(evs, i + 1)
            },
            _ => toc_from(evs, i + 1),
        }
    }
}

/// The table of contents of a Markdown source.
pub open spec fn toc_of(source: Seq<char>) -> Seq<(u8, Seq<char>, Seq<char>)> {
    toc_from(events_of(source, gfm()), 0)
}

proof fn lemma_toc_from_anchors(evs: Seq<MdEvent>, i: int)
    ensures
        forall|k: int|
            0 <= k < toc_from(evs, i).len() ==> (#[trigger] toc_from(evs, i)[k]).2 == anchor_of(
                toc_from(evs, i)[k].1,
            ),
    decreases evs.len() - i,
{
    if 0 <= i < evs.len() {
        lemma_toc_from_anchors(evs, i + 1);
        let rest = toc_from(evs, i + 1);
        if let MdEvent::OpenHeading(l) = evs[i] {
            assert forall|k: int| 0 <= k < toc_from(evs, i).len() implies (#[trigger] toc_from(
                evs,
                i,
            )[k]).2 == anchor_of(toc_from(evs, i)[k].1) by {
                if k > 0 {
                    assert(toc_from(evs, i)[k] == rest[k - 1]);
                }
            }
        }
    }
}

/// The anchor of a table-of-contents entry is the `id` that the rendered
/// page gives a heading element with the same text: both are the anchor of
/// that text.
pub proof fn lemma_toc_anchor_is_heading_id(source: Seq<char>, k: int, m: Seq<char>)
    requires
        0 <= k < toc_of(source).len(),
        heading_parts(m) is Some,
        tags_stripped(heading_parts(m).unwrap().1) == toc_of(source)[k].1,
    ensures
        heading_with_id(m) == with_id(
            heading_parts(m).unwrap().0,
            heading_parts(m).unwrap().1,
            toc_of(source)[k].2,
        ),
{
    lemma_toc_from_anchors(events_of(source, gfm()), 0);
}

/// The text and code content of the heading whose opening event is just before `start`.
fn collect_text(evs: &Vec<MdEvent>, start: usize) -> (r: Vec<char>)
    requires
        1 <= start <= evs@.len(),
    ensures
        r@ == text_from(evs@, start as int, 1),
{
    let mut out: Vec<char> = Vec::new();
    let mut j: usize = start;
    let mut depth: usize = 1;
    while j < evs.len() && depth > 0
        invariant
            1 <= start <= j <= evs@.len(),
            depth <= j - start + 1,
            out@ + text_from(evs@, j as int, depth as nat) == text_from(evs@, start as int, 1),
        decreases evs@.len() - j,
    {
        let ghost before = out@;
        match &evs[j] {
            MdEvent::OpenText(t) => {
                depth = depth + 1;
                let cs = chars_of(t.as_str());
                push_all(&mut out, &cs);
                assert(before + (t@ + text_from(evs@, j + 1, depth as nat)) =~= out@ + text_from(
                    evs@,
                    j + 1,
                    depth as nat,
                ));
            },
            MdEvent::OpenCode(c) => {
                depth = depth + 1;
                let cs = chars_of(c.as_str());
                push_all(&mut out, &cs);
                assert(before + (c@ + text_from(evs@, j + 1, depth as nat)) =~= out@ + text_from(
                    evs@,
                    j + 1,
                    depth as nat,
                ));
            },
            MdEvent::Close => {
                depth = depth - 1;
            },
            _ => {
                depth = depth + 1;
            },
        }
        j = j + 1;
    }
    out
}

/// Builds the table of contents from a walk of the document tree.
pub fn toc_from_events(evs: &Vec<MdEvent>) -> (r: Vec<TocEntry>)
    ensures
        r@.map_values(|e: TocEntry| e@) == toc_from(evs@, 0),
{
    let mut out: Vec<TocEntry> = Vec::new();
    let mut i: usize = 0;
    while i < evs.len()
        invariant
            i <= evs@.len(),
            out@.map_values(|e: TocEntry| e@) + toc_from(evs@, i as int) == toc_from(evs@, 0),
        decreases evs@.len() - i,
    {
        match &evs[i] {
            MdEvent::OpenHeading(level) => {
                let cs = collect_text(evs, i + 1);
                let text = string_of(&cs);
                let anchor = slugify(text.as_str());
                let ghost prev = out@.map_values(|e: TocEntry| e@);
                out.push(TocEntry { level: *level, text, anchor });
                assert(out@.map_values(|e: TocEntry| e@) == prev.push(out@.last()@));
            },
            _ => {},
        }
        i = i + 1;
    }
    out
}

/// Extracts the table of contents of a Markdown source: one entry per
/// heading, in document order, each with the anchor of its plain text.
pub fn extract_toc(content: &str) -> (r: Vec<TocEntry>)
    ensures
        r@.map_values(|e: TocEntry| e@) == toc_of(content@),
{
    let evs = document_events(content, gfm_extensions());
    toc_from_events(&evs)
}

} // verus!
