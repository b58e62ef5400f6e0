//! The web-view page: the table of contents as a list of links, the whole
//! page around a rendered body, and the script that swaps in new content.

use vstd::prelude::*;
use crate::text::{string_of, push_str, push_all, chars_of};
use crate::toc::{TocEntry, toc_of, extract_toc};
use crate::markdown::{page_body_of, parse_markdown};
use crate::images::{ImageSyntax, images_resolved, resolve_local_images};

verus! {

/// GitHub-like page style, with dark and light themes.
pub const GITHUB_CSS: &'static str = r#"
@media (prefers-color-scheme: dark) {
    :root { --bg: #0d1117; --fg: #e6edf3; --code-bg: #161b22; --border: #30363d; --link: #58a6ff; --blockquote: #8b949e; --sidebar-bg: #010409; --sidebar-hover: #161b22; --sidebar-active: #1f6feb33; }
}
@media (prefers-color-scheme: light) {
    :root { --bg: #ffffff; --fg: #1f2328; --code-bg: #f6f8fa; --border: #d0d7de; --link: #0969da; --blockquote: #656d76; --sidebar-bg: #f6f8fa; --sidebar-hover: #eaeef2; --sidebar-active: #ddf4ff; }
}
* { box-sizing: border-box; }
html, body { margin: 0; padding: 0; height: 100%; }
body {
    font-family: -apple-system, BlinkMacSystemFont, "Segoe UI", "Noto Sans", Helvetica, Arial, sans-serif;
    font-size: 16px;
    line-height: 1.6;
    color: var(--fg);
    background: var(--bg);
    display: flex;
}
.sidebar {
    width: 250px;
    min-width: 250px;
    height: 100vh;
    position: fixed;
    top: 0;
    left: 0;
    background: var(--sidebar-bg);
    border-right: 1px solid var(--border);
    overflow-y: auto;
    padding: 16px 0;
    font-size: 14px;
}
.sidebar-title {
    font-weight: 600;
    font-size: 12px;
    text-transform: uppercase;
    letter-spacing: 0.5px;
    color: var(--blockquote);
    padding: 8px 16px;
    margin: 0;
}
.sidebar ul { list-style: none; margin: 0; padding: 0; }
.sidebar li a {
    display: block;
    padding: 4px 16px;
    color: var(--fg);
    text-decoration: none;
    border-left: 3px solid transparent;
    transition: background 0.15s, border-color 0.15s;
}
.sidebar li a:hover { background: var(--sidebar-hover); }
.sidebar li a.active { background: var(--sidebar-active); border-left-color: var(--link); color: var(--link); }
.sidebar li.toc-h2 a { padding-left: 24px; }
.sidebar li.toc-h3 a { padding-left: 36px; font-size: 13px; }
.sidebar li.toc-h4 a { padding-left: 48px; font-size: 13px; color: var(--blockquote); }
.sidebar li.toc-h5 a, .sidebar li.toc-h6 a { padding-left: 56px; font-size: 12px; color: var(--blockquote); }
.content {
    margin-left: 250px;
    max-width: 900px;
    padding: 32px 24px;
    flex: 1;
}
h1, h2, h3, h4, h5, h6 { margin-top: 24px; margin-bottom: 16px; font-weight: 600; line-height: 1.25; }
h1 { font-size: 2em; padding-bottom: 0.3em; border-bottom: 1px solid var(--border); }
h2 { font-size: 1.5em; padding-bottom: 0.3em; border-bottom: 1px solid var(--border); }
code {
    font-family: ui-monospace, SFMono-Regular, "SF Mono", Menlo, Consolas, monospace;
    font-size: 85%;
    background: var(--code-bg);
    padding: 0.2em 0.4em;
    border-radius: 6px;
}
pre {
    background: var(--code-bg);
    padding: 16px;
    border-radius: 6px;
    overflow-x: auto;
    line-height: 1.45;
}
pre code { background: transparent; padding: 0; font-size: 85%; }
table { border-collapse: collapse; width: 100%; margin: 16px 0; }
th, td { border: 1px solid var(--border); padding: 6px 13px; }
th { font-weight: 600; background: var(--code-bg); }
blockquote {
    color: var(--blockquote);
    border-left: 4px solid var(--border);
    padding: 0 16px;
    margin: 16px 0;
}
a { color: var(--link); text-decoration: none; }
a:hover { text-decoration: underline; }
hr { border: none; border-top: 1px solid var(--border); margin: 24px 0; }
img { max-width: 100%; }
ul, ol { padding-left: 2em; }
input[type="checkbox"] { margin-right: 0.5em; }
.mermaid-diagram { text-align: center; margin: 16px 0; }
.mermaid-diagram svg { max-width: 100%; height: auto; }
.mermaid-error {
    border: 2px solid #f85149;
    border-radius: 6px;
    padding: 16px;
    margin: 16px 0;
    background: var(--code-bg);
}
.mermaid-error strong { color: #f85149; }
"#;

pub const PAGE_START: &'static str = "<!DOCTYPE html>\n<html>\n<head>\n<meta charset=\"utf-8\">\n<style>";

pub const PAGE_NAV: &'static str = "</style>\n</head>\n<body>\n<nav class=\"sidebar\">\n<p class=\"sidebar-title\">Table of Contents</p>\n<ul>";

pub const PAGE_CONTENT: &'static str = "</ul>\n</nav>\n<div class=\"content\">\n";

pub const PAGE_END: &'static str = r#"
</div>
<script>
document.querySelector('.sidebar').addEventListener('click', function(e) {
    if (e.target.tagName === 'A') {
        e.preventDefault();
        var id = e.target.getAttribute('href').substring(1);
        var el = document.getElementById(id);
        if (el) {
            el.scrollIntoView({ behavior: 'smooth', block: 'start' });
            document.querySelectorAll('.sidebar a').forEach(a => a.classList.remove('active'));
            e.target.classList.add('active');
        }
    }
});
</script>
</body>
</html>"#;

pub const ITEM_OPEN: &'static str = "<li class=\"toc-h";

pub const ITEM_HREF: &'static str = "\"><a href=\"#";

pub const ITEM_TEXT: &'static str = "\">";

pub const ITEM_CLOSE: &'static str = "</a></li>";

pub const SET_BODY: &'static str = "document.querySelector('.content').innerHTML = ";

pub const SET_TOC: &'static str = "; document.querySelector('.sidebar ul').innerHTML = ";

pub const SCRIPT_END: &'static str = ";";

/// The decimal digit of `d`, for `d < 10`.
pub open spec fn digit(d: nat) -> char {
    if d == 0 { '0' } else if d == 1 { '1' } else if d == 2 { '2' } else if d == 3 { '3' }
    else if d == 4 { '4' } else if d == 5 { '5' } else if d == 6 { '6' } else if d == 7 { '7' }
    else if d == 8 { '8' } else { '9' }
}

/// `n` written in decimal.
pub open spec fn decimal(n: nat) -> Seq<char>
    decreases n,
{
    if n < 10 {
        seq![digit(n)]
    } else {
        decimal(n / 10).push(digit(n % 10))
    }
}

/// One list item of the table of contents: a link to the entry's anchor,
/// classed by its level.
pub open spec fn toc_item(e: (u8, Seq<char>, Seq<char>)) -> Seq<char> {
    ITEM_OPEN@ + decimal(e.0 as nat) + ITEM_HREF@ + e.2 + ITEM_TEXT@ + e.1 + ITEM_CLOSE@
}

/// The list items of all entries, in order.
pub open spec fn toc_items(es: Seq<(u8, Seq<char>, Seq<char>)>) -> Seq<char>
    decreases es.len(),
{
    if es.len() == 0 {
        Seq::empty()
    } else {
        toc_items(es.drop_last()) + toc_item(es.last())
    }
}

/// The whole page: style, table of contents and body.
pub open spec fn page_of(body: Seq<char>, toc_html: Seq<char>) -> Seq<char> {
    PAGE_START@ + GITHUB_CSS@ + PAGE_NAV@ + toc_html + PAGE_CONTENT@ + body + PAGE_END@
}

/// What `serde_json::to_string` gives for a string: `None` where it fails.
pub uninterp spec fn json_of(s: Seq<char>) -> Option<Seq<char>>;

/// The JSON text, or the empty string where encoding failed.
pub open spec fn json_or_empty(s: Seq<char>) -> Seq<char> {
    match json_of(s) {
        Some(j) => j,
        None => Seq::empty(),
    }
}

/// The script that sets the content and the table of contents from their JSON texts.
pub open spec fn script_of(body_json: Seq<char>, toc_json: Seq<char>) -> Seq<char> {
    SET_BODY@ + body_json + SET_TOC@ + toc_json + SCRIPT_END@
}

/// Relies on `serde_json::to_string`: a string as a JSON string literal.
#[verifier::external_body]
fn json_string(s: &str) -> (r: Option<String>)
    ensures
        r.is_some() == json_of(s@).is_some(),
        r.is_some() ==> r.unwrap()@ == json_of(s@).unwrap(),
{
    serde_json::to_string(s).ok()
}

/// Appends `n` in decimal.
fn push_decimal(out: &mut Vec<char>, n: u8)
    ensures
        final(out)@ == old(out)@ + decimal(n as nat),
{
    let ghost n0 = n as nat;
    let digits = vec!['0', '1', '2', '3', '4', '5', '6', '7', '8', '9'];
    assert(forall|d: nat| d < 10 ==> #[trigger] digits@[d as int] == digit(d));
    if n >= 100 {
        out.push(digits[(n / 100) as usize]);
        out.push(digits[((n / 10) % 10) as usize]);
        out.push(digits[(n % 10) as usize]);
        assert(decimal(n0 / 100) == seq![digit(n0 / 100)]);
        assert(decimal(n0 / 10) == seq![digit(n0 / 100)].push(digit((n0 / 10) % 10)));
    } else if n >= 10 {
        out.push(digits[(n / 10) as usize]);
        out.push(digits[(n % 10) as usize]);
        assert(decimal(n0 / 10) == seq![digit(n0 / 10)]);
    } else {
        out.push(digits[n as usize]);
    }
    assert(final(out)@ =~= old(out)@ + decimal(n0));
}

/// The table of contents as list items, one link per entry.
pub fn build_toc_html(entries: &Vec<TocEntry>) -> (r: String)
    ensures
        r@ == toc_items(entries@.map_values(|e: TocEntry| e@)),
{
    let ghost es = entries@.map_values(|e: TocEntry| e@);
    let mut out: Vec<char> = Vec::new();
    let mut i: usize = 0;
    while i < entries.len()
        invariant
            i <= entries@.len(),
            es == entries@.map_values(|e: TocEntry| e@),
            out@ == toc_items(es.subrange(0, i as int)),
        decreases entries@.len() - i,
    {
        proof {
            assert(es.subrange(0, i + 1).drop_last() == es.subrange(0, i as int));
        }
        let e = &entries[i];
        let ghost before = out@;
        push_str(&mut out, ITEM_OPEN);
        push_decimal(&mut out, e.level);
        push_str(&mut out, ITEM_HREF);
        push_str(&mut out, e.anchor.as_str());
        push_str(&mut out, ITEM_TEXT);
        push_str(&mut out, e.text.as_str());
        push_str(&mut out, ITEM_CLOSE);
        assert(out@ =~= before + toc_item(es[i as int]));
        i = i + 1;
    }
    assert(es.subrange(0, es.len() as int) == es);
    string_of(&out)
}

/// The whole page: style, the table of contents in a sidebar, and `body`.
pub fn build_html(body: &str, toc_entries: &Vec<TocEntry>) -> (r: String)
    ensures
        r@ == page_of(body@, toc_items(toc_entries@.map_values(|e: TocEntry| e@))),
{
    let toc_html = build_toc_html(toc_entries);
    let mut out: Vec<char> = Vec::new();
    push_str(&mut out, PAGE_START);
    push_str(&mut out, GITHUB_CSS);
    push_str(&mut out, PAGE_NAV);
    push_str(&mut out, toc_html.as_str());
    push_str(&mut out, PAGE_CONTENT);
    push_str(&mut out, body);
    push_str(&mut out, PAGE_END);
    assert(out@ =~= page_of(body@, toc_html@));
    string_of(&out)
}

/// The script that swaps in new content and a new table of contents, from
/// their JSON string literals.
pub fn script_from_json(body_json: &str, toc_json: &str) -> (r: String)
    ensures
        r@ == script_of(body_json@, toc_json@),
{
    let mut out: Vec<char> = Vec::new();
    push_str(&mut out, SET_BODY);
    push_str(&mut out, body_json);
    push_str(&mut out, SET_TOC);
    push_str(&mut out, toc_json);
    push_str(&mut out, SCRIPT_END);
    assert(out@ =~= script_of(body_json@, toc_json@));
    string_of(&out)
}

/// The script that replaces the page's content with `body_html` and its
/// table of contents with `toc_html`.
pub fn reload_script(body_html: &str, toc_html: &str) -> (r: String)
    ensures
        r@ == script_of(json_or_empty(body_html@), json_or_empty(toc_html@)),
{
    let body_json = match json_string(body_html) {
        Some(j) => j,
        None => String::new(),
    };
    let toc_json = match json_string(toc_html) {
        Some(j) => j,
        None => String::new(),
    };
    script_from_json(body_json.as_str(), toc_json.as_str())
}

/// The page body of `content` with its image references resolved against
/// `base` for the existing paths `present`.
pub open spec fn resolved_body_of(content: Seq<char>, base: Seq<char>, present: Seq<Seq<char>>) -> Seq<
    char,
> {
    images_resolved(page_body_of(content), ImageSyntax::Html, base, present)
}

/// The whole page for a Markdown source: the rendered body with local images
/// made absolute, and its table of contents.
pub fn initial_page(content: &str, base_dir: &str) -> (r: String)
    ensures
        exists|present: Seq<Seq<char>>|
            r@ == page_of(
                #[trigger] resolved_body_of(content@, base_dir@, present),
                toc_items(toc_of(content@)),
            ),
{
    let rendered = parse_markdown(content);
    let body = resolve_local_images(rendered.as_str(), base_dir);
    let ghost present = choose|p: Seq<Seq<char>>|
        body@ == #[trigger] images_resolved(rendered@, ImageSyntax::Html, base_dir@, p);
    assert(body@ == resolved_body_of(content@, base_dir@, present));
    let toc = extract_toc(content);
    build_html(body.as_str(), &toc)
}

/// The script that brings a shown page up to date with a new Markdown
/// source: the whole body and the whole table of contents are replaced.
pub fn update_script(content: &str, base_dir: &str) -> (r: String)
    ensures
        exists|present: Seq<Seq<char>>|
            r@ == script_of(
                json_or_empty(#[trigger] resolved_body_of(content@, base_dir@, present)),
                json_or_empty(toc_items(toc_of(content@))),
            ),
{
    let rendered = parse_markdown(content);
    let body = resolve_local_images(rendered.as_str(), base_dir);
    let ghost present = choose|p: Seq<Seq<char>>|
        body@ == #[trigger] images_resolved(rendered@, ImageSyntax::Html, base_dir@, p);
    assert(body@ == resolved_body_of(content@, base_dir@, present));
    let toc = extract_toc(content);
    let toc_html = build_toc_html(&toc);
    reload_script(body.as_str(), toc_html.as_str())
}

} // verus!
