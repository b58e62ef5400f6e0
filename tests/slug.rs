use mdr::slug::{slugify, slugify_lowered};

#[test]
fn punctuation_and_spaces_are_dropped() {
    assert_eq!(slugify("Hello, World!"), "helloworld");
    assert_eq!(slugify("Getting Started"), "gettingstarted");
}

#[test]
fn hyphen_and_underscore_are_kept() {
    assert_eq!(slugify("snake_case-Name v2"), "snake_case-namev2");
}

#[test]
fn single_letter_is_lowercased() {
    assert_eq!(slugify("A"), "a");
    assert_eq!(slugify("ÀB"), "àb");
}

#[test]
fn slug_is_deterministic() {
    let t = "Some *Heading* (v1.2)";
    assert_eq!(slugify(t), slugify(t));
    assert_eq!(slugify(t), "someheadingv12");
}

#[test]
fn slug_of_empty_and_symbols_is_empty() {
    assert_eq!(slugify(""), "");
    assert_eq!(slugify("!?  ."), "");
}

#[test]
fn slugify_lowered_only_filters() {
    assert_eq!(slugify_lowered("Keep Case!"), "KeepCase");
}
