//! Markdown to HTML, with an `id` on every heading so that table-of-contents
//! links can reach it.

use vstd::prelude::*;
use crate::text::{chars_of, string_of, push_all, slice_of};
use crate::pattern::{regex_split, split_matches};
use crate::render::{gfm, gfm_extensions, html_of, render_html};
use crate::slug::{anchor_of, slugify};

verus! {

/// An HTML heading element on one line: `<hN>`, its content, and a closing heading tag.
pub const HEADING_PATTERN: &'static str = r"<(h[1-6])>(.*?)</h[1-6]>";

/// An HTML tag.
pub const TAG_PATTERN: &'static str = r"<[^>]+>";

/// The pieces at even positions (the gaps between matches), joined.
pub open spec fn join_gaps(ps: Seq<Seq<char>>) -> Seq<char>
    decreases ps.len(),
{
    if ps.len() == 0 {
        Seq::empty()
    } else {
        join_gaps(ps.drop_last()) + if (ps.len() - 1) % 2 == 0 { ps.last() } else { Seq::empty() }
    }
}

/// HTML text with its tags taken out.
pub open spec fn tags_stripped(html: Seq<char>) -> Seq<char> {
    match regex_split(TAG_PATTERN@, html) {
        Some(ps) => join_gaps(ps),
        None => html,
    }
}

/// The tag name and the content of a matched heading element.
pub open spec fn heading_parts(m: Seq<char>) -> Option<(Seq<char>, Seq<char>)> {
    let n = m.len();
    if n >= 9 && m[0] == '<' && m[1] == 'h' && m[3] == '>' && m[n - 5] == '<' && m[n - 4] == '/'
        && m[n - 3] == 'h' && m[n - 1] == '>' {
        Some((m.subrange(1, 3), m.subrange(4, n - 5)))
    } else {
        None
    }
}

/// `<tag id="id">content</tag>`.
pub open spec fn with_id(tag: Seq<char>, content: Seq<char>, id: Seq<char>) -> Seq<char> {
    seq!['<'] + tag + seq![' ', 'i', 'd', '=', '"'] + id + seq!['"', '>'] + content + seq!['<', '/']
        + tag + seq!['>']
}

/// A matched heading element with the anchor of its text as `id`.
pub open spec fn heading_with_id(m: Seq<char>) -> Seq<char> {
    match heading_parts(m) {
        Some((tag, content)) => with_id(tag, content, anchor_of(tags_stripped(content))),
        None => m,
    }
}

/// The pieces joined, each match (odd position) given its `id`.
pub open spec fn join_headings(ps: Seq<Seq<char>>) -> Seq<char>
    decreases ps.len(),
{
    if ps.len() == 0 {
        Seq::empty()
    } else {
        join_headings(ps.drop_last()) + if (ps.len() - 1) % 2 == 1 {
            heading_with_id(ps.last())
        } else {
            ps.last()
        }
    }
}

/// HTML with every one-line heading element given the anchor of its text as `id`.
pub open spec fn ids_added(html: Seq<char>) -> Seq<char> {
    match regex_split(HEADING_PATTERN@, html) {
        Some(ps) => join_headings(ps),
        None => html,
    }
}

/// The HTML that a Markdown source is shown as.
pub open spec fn page_body_of(source: Seq<char>) -> Seq<char> {
    ids_added(html_of(source, gfm()))
}

/// Takes every HTML tag out of `html`, leaving the text between them.
pub fn strip_html_tags(html: &str) -> (r: String)
    ensures
        r@ == tags_stripped(html@),
{
    let pieces = match split_matches(TAG_PATTERN, html) {
        Some(ps) => ps,
        None => {
            return html.to_string();
        },
    };
    let ghost ps = pieces@.map_values(|p: String| p@);
    let mut out: Vec<char> = Vec::new();
    let mut i: usize = 0;
    while i < pieces.len()
        invariant
            i <= pieces@.len(),
            ps == pieces@.map_values(|p: String| p@),
            out@ == join_gaps(ps.subrange(0, i as int)),
        decreases pieces@.len() - i,
    {
        proof {
            assert(ps.subrange(0, i + 1).drop_last() == ps.subrange(0, i as int));
        }
        if i % 2 == 0 {
            let cs = chars_of(pieces[i].as_str());
            push_all(&mut out, &cs);
        }
        i = i + 1;
    }
    assert(ps.subrange(0, ps.len() as int) == ps);
    string_of(&out)
}

/// One matched heading element with its `id` added.
fn add_id(m: &Vec<char>) -> (r: Vec<char>)
    ensures
        r@ == heading_with_id(m@),
{
    let n = m.len();
    if n >= 9 && m[0] == '<' && m[1] == 'h' && m[3] == '>' && m[n - 5] == '<' && m[n - 4] == '/'
        && m[n - 3] == 'h' && m[n - 1] == '>' {
        let tag = slice_of(m, 1, 3);
        let content = slice_of(m, 4, n - 5);
        let content_str = string_of(&content);
        let plain = strip_html_tags(content_str.as_str());
        let id = chars_of(slugify(plain.as_str()).as_str());
        let mut out: Vec<char> = Vec::new();
        out.push('<');
        push_all(&mut out, &tag);
        out.push(' ');
        out.push('i');
        out.push('d');
        out.push('=');
        out.push('"');
        push_all(&mut out, &id);
        out.push('"');
        out.push('>');
        push_all(&mut out, &content);
        out.push('<');
        out.push('/');
        push_all(&mut out, &tag);
        out.push('>');
        assert(out@ == with_id(tag@, content@, id@));
        out
    } else {
        slice_of(m, 0, n)
    }
}

/// Gives every one-line heading element of rendered HTML an `id` attribute:
/// the anchor of the heading's text with its tags taken out.
pub fn add_heading_ids(html: &str) -> (r: String)
    ensures
        r@ == ids_added(html@),
{
    let pieces = match split_matches(HEADING_PATTERN, html) {
        Some(ps) => ps,
        None => {
            return html.to_string();
        },
    };
    let ghost ps = pieces@.map_values(|p: String| p@);
    let mut out: Vec<char> = Vec::new();
    let mut i: usize = 0;
    while i < pieces.len()
        invariant
            i <= pieces@.len(),
            ps == pieces@.map_values(|p: String| p@),
            out@ == join_headings(ps.subrange(0, i as int)),
        decreases pieces@.len() - i,
    {
        proof {
            assert(ps.subrange(0, i + 1).drop_last() == ps.subrange(0, i as int));
        }
        let cs = chars_of(pieces[i].as_str());
        if i % 2 == 1 {
            let with = add_id(&cs);
            push_all(&mut out, &with);
        } else {
            push_all(&mut out, &cs);
        }
        i = i + 1;
    }
    assert(ps.subrange(0, ps.len() as int) == ps);
    string_of(&out)
}

/// Renders Markdown to HTML with the GitHub-flavoured extensions, every
/// heading carrying its anchor as `id`.
pub fn parse_markdown(content: &str) -> (r: String)
    ensures
        r@ == page_body_of(content@),
{
    let html = render_html(content, gfm_extensions());
    add_heading_ids(html.as_str())
}

} // verus!
