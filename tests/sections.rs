use mdr::sections::split_by_headings;

#[test]
fn preamble_then_two_headings() {
    let (has_preamble, sections) = split_by_headings("Intro text\n# A\nbody a\n## B\nbody b\n");
    assert!(has_preamble);
    assert_eq!(sections, vec!["Intro text\n", "# A\nbody a\n", "## B\nbody b\n"]);
}

#[test]
fn single_heading_document() {
    let (has_preamble, sections) = split_by_headings("# Only\ncontent\n");
    assert!(!has_preamble);
    assert_eq!(sections, vec!["# Only\ncontent\n"]);
}

#[test]
fn empty_document_has_no_sections() {
    let (has_preamble, sections) = split_by_headings("");
    assert!(!has_preamble);
    assert!(sections.is_empty());
}

#[test]
fn no_headings_gives_one_preamble_section() {
    let (has_preamble, sections) = split_by_headings("just text\nmore");
    assert!(has_preamble);
    assert_eq!(sections, vec!["just text\nmore\n"]);
}

#[test]
fn hash_without_space_or_shebang_is_no_heading() {
    let (has_preamble, sections) = split_by_headings("#!/bin/sh\n#tag\n### Real\nx\n");
    assert!(has_preamble);
    assert_eq!(sections, vec!["#!/bin/sh\n#tag\n", "### Real\nx\n"]);
}

#[test]
fn blank_lines_stay_with_their_section_and_crlf_is_dropped() {
    let (has_preamble, sections) = split_by_headings("# A\r\n\r\n\n# B\r\nb");
    assert!(!has_preamble);
    assert_eq!(sections, vec!["# A\n\n\n", "# B\nb\n"]);
}

#[test]
fn section_count_is_headings_plus_preamble() {
    let doc = "pre\n# One\n1\n# Two\n2\n# Three\n3\n";
    let (has_preamble, sections) = split_by_headings(doc);
    let toc = mdr::toc::extract_toc(doc);
    assert!(has_preamble);
    assert_eq!(sections.len(), toc.len() + 1);
    let (has_preamble2, sections2) = split_by_headings("# One\n1\n# Two\n");
    assert!(!has_preamble2);
    assert_eq!(sections2.len(), 2);
}
