//! The Markdown parser, through the `comrak` crate: HTML rendering and the
//! document tree as a flat list of events.

use vstd::prelude::*;
use comrak::arena_tree::NodeEdge;
use comrak::nodes::NodeValue;

verus! {

/// The Markdown extensions that the parser is run with.
#[derive(Clone, Copy, Debug, PartialEq, Eq)]
pub struct Extensions {
    pub strikethrough: bool,
    pub table: bool,
    pub autolink: bool,
    pub tasklist: bool,
    pub footnotes: bool,
}

/// The extension set used for every pass over a document.
pub open spec fn gfm() -> Extensions {
    Extensions { strikethrough: true, table: true, autolink: true, tasklist: true, footnotes: true }
}

/// The GitHub-flavoured set: strikethrough, tables, autolinks, task lists and footnotes.
pub fn gfm_extensions() -> (r: Extensions)
    ensures
        r == gfm(),
{
    Extensions { strikethrough: true, table: true, autolink: true, tasklist: true, footnotes: true }
}

/// One step of a walk through the document tree, in tree order: a node is
/// opened, then its children are walked, then it is closed.
#[derive(Clone, Debug, PartialEq, Eq)]
pub enum MdEvent {
    /// A heading of the given level opens.
    OpenHeading(u8),
    /// A run of plain text opens.
    OpenText(String),
    /// An inline code span with the given content opens.
    OpenCode(String),
    /// Any other node opens.
    OpenOther,
    /// The node opened last and not closed yet closes.
    Close,
}

/// What `comrak::markdown_to_html` returns for a source text.
pub uninterp spec fn html_of(source: Seq<char>, ext: Extensions) -> Seq<char>;

/// What a walk of `comrak::parse_document`'s tree yields for a source text.
pub uninterp spec fn events_of(source: Seq<char>, ext: Extensions) -> Seq<MdEvent>;

/// Relies on `comrak::markdown_to_html`, with the given extensions switched on.
#[verifier::external_body]
pub(crate) fn render_html(source: &str, e: Extensions) -> (r: String)
    ensures
        r@ == html_of(source@, e),
{
    let x = comrak::options::Extension { strikethrough: e.strikethrough, table: e.table,
        autolink: e.autolink, tasklist: e.tasklist, footnotes: e.footnotes, ..Default::default() };
    comrak::markdown_to_html(source, &comrak::Options { extension: x, ..Default::default() })
}

/// Relies on `comrak::parse_document` and the tree's `traverse`: each node's
/// start and end, with the heading level, text and code content carried over.
#[verifier::external_body]
pub(crate) fn document_events(source: &str, e: Extensions) -> (r: Vec<MdEvent>)
    ensures
        r@ == events_of(source@, e),
{
    let x = comrak::options::Extension { strikethrough: e.strikethrough, table: e.table,
        autolink: e.autolink, tasklist: e.tasklist, footnotes: e.footnotes, ..Default::default() };
    let arena = comrak::Arena::new();
    let root = comrak::parse_document(&arena, source, &comrak::Options { extension: x, ..Default::default() });
    root.traverse().map(|edge| match edge {
        NodeEdge::End(_) => MdEvent::Close,
        NodeEdge::Start(n) => match &n.data().value {
            NodeValue::Heading(h) => MdEvent::OpenHeading(h.level),
            NodeValue::Text(t) => MdEvent::OpenText(t.to_string()),
            NodeValue::Code(c) => MdEvent::OpenCode(c.literal.clone()),
            _ => MdEvent::OpenOther,
        },
    }).collect()
}

} // verus!
