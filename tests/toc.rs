use mdr::toc::{extract_toc, TocEntry};

fn triple(e: &TocEntry) -> (u8, String, String) {
    (e.level, e.text.clone(), e.anchor.clone())
}

#[test]
fn toc_of_preamble_document() {
    let toc = extract_toc("Intro text\n# A\nbody a\n## B\nbody b\n");
    let got: Vec<(u8, String, String)> = toc.iter().map(triple).collect();
    assert_eq!(
        got,
        vec![(1, "A".to_string(), "a".to_string()), (2, "B".to_string(), "b".to_string())]
    );
}

#[test]
fn toc_of_single_heading() {
    let toc = extract_toc("# Only\ncontent\n");
    let got: Vec<(u8, String, String)> = toc.iter().map(triple).collect();
    assert_eq!(got, vec![(1, "Only".to_string(), "only".to_string())]);
}

#[test]
fn heading_text_keeps_text_and_code_only() {
    let toc = extract_toc("## Use `foo()` with *care*\n");
    assert_eq!(toc.len(), 1);
    assert_eq!(toc[0].level, 2);
    assert_eq!(toc[0].text, "Use foo() with care");
    assert_eq!(toc[0].anchor, "usefoowithcare");
}

#[test]
fn equal_headings_share_an_anchor() {
    let toc = extract_toc("# Notes\nx\n# Notes\ny\n");
    assert_eq!(toc.len(), 2);
    assert_eq!(toc[0].anchor, "notes");
    assert_eq!(toc[1].anchor, "notes");
}

#[test]
fn setext_headings_are_listed() {
    let toc = extract_toc("Title\n=====\n\nSub\n---\n");
    let got: Vec<(u8, String, String)> = toc.iter().map(triple).collect();
    assert_eq!(
        got,
        vec![(1, "Title".to_string(), "title".to_string()), (2, "Sub".to_string(), "sub".to_string())]
    );
}

#[test]
fn no_headings_no_entries() {
    assert!(extract_toc("plain\n\ntext\n").is_empty());
}
