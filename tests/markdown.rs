use mdr::markdown::{add_heading_ids, parse_markdown, strip_html_tags};
use mdr::toc::extract_toc;

#[test]
fn heading_gets_anchor_id() {
    let html = parse_markdown("# Hello World\n\ntext\n");
    assert!(html.contains("<h1 id=\"helloworld\">Hello World</h1>"), "{}", html);
}

#[test]
fn extensions_are_on() {
    let html = parse_markdown("~~gone~~\n\n- [x] done\n");
    assert!(html.contains("<del>gone</del>"), "{}", html);
    assert!(html.contains("checkbox"), "{}", html);
}

#[test]
fn toc_anchors_equal_heading_ids() {
    let doc = "# First *bold* one\n\n## Second `code`\n\n### Third, again!\n";
    let html = parse_markdown(doc);
    for entry in extract_toc(doc) {
        let id = format!("id=\"{}\"", entry.anchor);
        assert!(html.contains(&id), "{} not in {}", id, html);
    }
}

#[test]
fn strip_tags_keeps_text() {
    assert_eq!(strip_html_tags("<em>a</em>b<code>c</code>"), "abc");
    assert_eq!(strip_html_tags("no tags"), "no tags");
}

#[test]
fn ids_added_to_nested_markup() {
    assert_eq!(
        add_heading_ids("<p>x</p>\n<h2>Use <code>y</code> now</h2>\n"),
        "<p>x</p>\n<h2 id=\"useynow\">Use <code>y</code> now</h2>\n"
    );
}

#[test]
fn multiline_heading_element_is_left_alone() {
    assert_eq!(add_heading_ids("<h1>a\nb</h1>"), "<h1>a\nb</h1>");
}
