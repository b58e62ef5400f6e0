//! Rewriting relative image references to absolute `file://` locations.
//!
//! A reference is rewritten only where its target is local (not `http://`,
//! `https://`, `data:` or `file://`) and the joined path exists; every other
//! reference is left exactly as it was.

use vstd::prelude::*;
use crate::text::{chars_of, string_of, push_all, slice_of};
use crate::pattern::{regex_split, split_matches};

verus! {

/// An HTML image tag up to the end of its `src` attribute.
pub const IMG_TAG_PATTERN: &'static str = r#"<img\s+src="([^"]+)""#;

/// A Markdown image: `![alt](target)`.
pub const MD_IMAGE_PATTERN: &'static str = r"!\[([^\]]*)\]\(([^)]+)\)";

/// The two ways an image reference is written.
#[derive(Clone, Copy, Debug, PartialEq, Eq)]
pub enum ImageSyntax {
    /// `<img src="target"` in rendered HTML.
    Html,
    /// `![alt](target)` in Markdown source.
    Markdown,
}

/// What `Path::join` followed by `Path::display` gives for a base directory
/// and a relative path.
pub uninterp spec fn path_join(base: Seq<char>, rel: Seq<char>) -> Seq<char>;

/// Relies on `std::path::Path::join` and `Path::display`: the joined path as text.
#[verifier::external_body]
fn joined_path(base: &str, rel: &str) -> (r: String)
    ensures
        r@ == path_join(base@, rel@),
{
    std::path::Path::new(base).join(rel).display().to_string()
}

/// Relies on `std::path::Path::exists`; what it returns depends on the disk.
#[verifier::external_body]
fn path_exists(p: &str) -> (r: bool) {
    std::path::Path::new(p).exists()
}

/// The first index at or after `i` that holds `c`, or the length if none does.
pub open spec fn find_from(m: Seq<char>, c: char, i: int) -> int
    decreases m.len() - i,
{
    if i < 0 || i >= m.len() {
        m.len() as int
    } else if m[i] == c {
        i
    } else {
        find_from(m, c, i + 1)
    }
}

/// `s` begins with `p`.
pub open spec fn starts_with(s: Seq<char>, p: Seq<char>) -> bool {
    p.len() <= s.len() && s.subrange(0, p.len() as int) == p
}

/// `file://`
pub open spec fn file_scheme() -> Seq<char> {
    seq!['f', 'i', 'l', 'e', ':', '/', '/']
}

/// A target that is a network, embedded-data or already absolute file location.
pub open spec fn is_remote(src: Seq<char>) -> bool {
    starts_with(src, seq!['h', 't', 't', 'p', ':', '/', '/'])
    || starts_with(src, seq!['h', 't', 't', 'p', 's', ':', '/', '/'])
    || starts_with(src, seq!['d', 'a', 't', 'a', ':'])
    || starts_with(src, file_scheme())
}

/// The alt text (empty for HTML) and the target of a matched image reference.
pub open spec fn image_parts(m: Seq<char>, syntax: ImageSyntax) -> Option<(Seq<char>, Seq<char>)> {
    let n = m.len() as int;
    match syntax {
        ImageSyntax::Html => {
            let q = find_from(m, '"', 0);
            if n >= 2 && m[n - 1] == '"' && q < n - 1 {
                Some((Seq::empty(), m.subrange(q + 1, n - 1)))
            } else {
                None
            }
        },
        ImageSyntax::Markdown => {
            let k = find_from(m, ']', 2);
            if n >= 2 && m[0] == '!' && m[1] == '[' && k + 2 <= n - 1 && m[k + 1] == '(' && m[n - 1]
                == ')' {
                Some((m.subrange(2, k), m.subrange(k + 2, n - 1)))
            } else {
                None
            }
        },
    }
}

/// An image reference written anew with an absolute `file://` target.
pub open spec fn image_at(syntax: ImageSyntax, alt: Seq<char>, abs: Seq<char>) -> Seq<char> {
    match syntax {
        ImageSyntax::Html => seq!['<', 'i', 'm', 'g', ' ', 's', 'r', 'c', '=', '"'] + file_scheme()
            + abs + seq!['"'],
        ImageSyntax::Markdown => seq!['!', '['] + alt + seq![']', '('] + file_scheme() + abs + seq![
            ')',
        ],
    }
}

/// One matched reference, rewritten where its target is local and its joined
/// path is among `present`.
pub open spec fn image_resolved(
    m: Seq<char>,
    syntax: ImageSyntax,
    base: Seq<char>,
    present: Seq<Seq<char>>,
) -> Seq<char> {
    match image_parts(m, syntax) {
        Some((alt, src)) => if !is_remote(src) && present.contains(path_join(base, src)) {
            image_at(syntax, alt, path_join(base, src))
        } else {
            m
        },
        None => m,
    }
}

/// The pieces joined, each match (odd position) resolved.
pub open spec fn join_images(
    ps: Seq<Seq<char>>,
    syntax: ImageSyntax,
    base: Seq<char>,
    present: Seq<Seq<char>>,
) -> Seq<char>
    decreases ps.len(),
{
    if ps.len() == 0 {
        Seq::empty()
    } else {
        join_images(ps.drop_last(), syntax, base, present) + if (ps.len() - 1) % 2 == 1 {
            image_resolved(ps.last(), syntax, base, present)
        } else {
            ps.last()
        }
    }
}

/// The pattern that finds references of a syntax.
pub open spec fn pattern_of(syntax: ImageSyntax) -> Seq<char> {
    match syntax {
        ImageSyntax::Html => IMG_TAG_PATTERN@,
        ImageSyntax::Markdown => MD_IMAGE_PATTERN@,
    }
}

/// `text` with each image reference resolved against `base`, taking the paths
/// in `present` as those that exist.
pub open spec fn images_resolved(
    text: Seq<char>,
    syntax: ImageSyntax,
    base: Seq<char>,
    present: Seq<Seq<char>>,
) -> Seq<char> {
    match regex_split(pattern_of(syntax), text) {
        Some(ps) => join_images(ps, syntax, base, present),
        None => text,
    }
}

proof fn lemma_find_from_at(m: Seq<char>, c: char, i: int, p: int)
    requires
        0 <= i <= p < m.len(),
        m[p] == c,
        forall|j: int| i <= j < p ==> m[j] != c,
    ensures
        find_from(m, c, i) == p,
    decreases p - i,
{
    if i < p {
        lemma_find_from_at(m, c, i + 1, p);
    }
}

proof fn lemma_find_from_skips(m: Seq<char>, c: char, i: int)
    requires
        0 <= i <= m.len(),
    ensures
        i <= find_from(m, c, i) <= m.len(),
        forall|j: int| i <= j < find_from(m, c, i) ==> m[j] != c,
    decreases m.len() - i,
{
    if i < m.len() {
        lemma_find_from_skips(m, c, i + 1);
    }
}

/// Resolving a reference a second time, against the same existing paths,
/// gives what the first time gave. A reference that was written anew points
/// at a `file://` location, which resolution leaves alone whatever exists.
pub proof fn lemma_resolved_reference_is_stable(
    m: Seq<char>,
    syntax: ImageSyntax,
    base: Seq<char>,
    present: Seq<Seq<char>>,
    present_later: Seq<Seq<char>>,
)
    ensures
        image_resolved(image_resolved(m, syntax, base, present), syntax, base, present)
            == image_resolved(m, syntax, base, present),
        image_resolved(m, syntax, base, present) != m ==> image_resolved(
            image_resolved(m, syntax, base, present),
            syntax,
            base,
            present_later,
        ) == image_resolved(m, syntax, base, present),
{
    let once = image_resolved(m, syntax, base, present);
    if once != m {
        let (alt, src) = image_parts(m, syntax).unwrap();
        let abs = path_join(base, src);
        let target = file_scheme() + abs;
        let n = once.len() as int;
        match syntax {
            ImageSyntax::Html => {
                assert(once == seq!['<', 'i', 'm', 'g', ' ', 's', 'r', 'c', '=', '"'] + target + seq!['"']);
                assert(once[9] == '"');
                assert forall|j: int| 0 <= j < 9 implies once[j] != '"' by {}
                lemma_find_from_at(once, '"', 0, 9);
                assert(once.subrange(10, n - 1) =~= target);
                assert(target.subrange(0, 7) =~= file_scheme());
                assert(is_remote(target));
                assert(image_parts(once, syntax) == Some((Seq::<char>::empty(), target)));
            },
            ImageSyntax::Markdown => {
                let k = find_from(m, ']', 2);
                lemma_find_from_skips(m, ']', 2);
                assert(alt == m.subrange(2, k));
                assert(once == seq!['!', '['] + alt + seq![']', '('] + target + seq![')']);
                let k2: int = 2 + alt.len() as int;
                assert forall|j: int| 2 <= j < k2 implies once[j] != ']' by {
                    assert(once[j] == m[j]);
                }
                assert(once[k2] == ']');
                lemma_find_from_at(once, ']', 2, k2);
                assert(once.subrange(k2 + 2, n - 1) =~= target);
                assert(target.subrange(0, 7) =~= file_scheme());
                assert(is_remote(target));
                assert(once.subrange(2, k2) =~= alt);
                assert(image_parts(once, syntax) == Some((alt, target)));
            },
        }
    }
}

fn find_char(m: &Vec<char>, c: char, from: usize) -> (r: usize)
    requires
        from <= m@.len(),
    ensures
        r == find_from(m@, c, from as int),
        from <= r <= m@.len(),
{
    let mut i: usize = from;
    while i < m.len() && m[i] != c
        invariant
            from <= i <= m@.len(),
            find_from(m@, c, from as int) == find_from(m@, c, i as int),
        decreases m@.len() - i,
    {
        i = i + 1;
    }
    i
}

fn has_prefix(s: &Vec<char>, p: &Vec<char>) -> (r: bool)
    ensures
        r == starts_with(s@, p@),
{
    if p.len() > s.len() {
        return false;
    }
    let mut i: usize = 0;
    while i < p.len()
        invariant
            p@.len() <= s@.len(),
            i <= p@.len(),
            s@.subrange(0, i as int) == p@.subrange(0, i as int),
        decreases p@.len() - i,
    {
        if s[i] != p[i] {
            assert(s@.subrange(0, p@.len() as int)[i as int] != p@[i as int]);
            return false;
        }
        i = i + 1;
        assert(s@.subrange(0, i as int) =~= p@.subrange(0, i as int));
    }
    assert(p@.subrange(0, p@.len() as int) == p@);
    true
}

fn file_scheme_chars() -> (r: Vec<char>)
    ensures
        r@ == file_scheme(),
{
    let r = vec!['f', 'i', 'l', 'e', ':', '/', '/'];
    assert(r@ =~= file_scheme());
    r
}

fn remote(src: &Vec<char>) -> (r: bool)
    ensures
        r == is_remote(src@),
{
    let http = vec!['h', 't', 't', 'p', ':', '/', '/'];
    let https = vec!['h', 't', 't', 'p', 's', ':', '/', '/'];
    let data = vec!['d', 'a', 't', 'a', ':'];
    assert(http@ =~= seq!['h', 't', 't', 'p', ':', '/', '/']);
    assert(https@ =~= seq!['h', 't', 't', 'p', 's', ':', '/', '/']);
    assert(data@ =~= seq!['d', 'a', 't', 'a', ':']);
    has_prefix(src, &http) || has_prefix(src, &https) || has_prefix(src, &data) || has_prefix(
        src,
        &file_scheme_chars(),
    )
}

/// The alt text and target of a matched reference, as `image_parts` gives them.
fn parts(m: &Vec<char>, syntax: ImageSyntax) -> (r: Option<(Vec<char>, Vec<char>)>)
    ensures
        match (r, image_parts(m@, syntax)) {
            (Some((a, s)), Some((sa, ss))) => a@ == sa && s@ == ss,
            (None, None) => true,
            _ => false,
        },
{
    let n = m.len();
    match syntax {
        ImageSyntax::Html => {
            let q = find_char(m, '"', 0);
            if n >= 2 && m[n - 1] == '"' && q < n - 1 {
                Some((Vec::new(), slice_of(m, q + 1, n - 1)))
            } else {
                None
            }
        },
        ImageSyntax::Markdown => {
            if n < 2 {
                return None;
            }
            let k = find_char(m, ']', 2);
            if m[0] == '!' && m[1] == '[' && k < n - 2 && m[k + 1] == '(' && m[n - 1]
                == ')' {
                Some((slice_of(m, 2, k), slice_of(m, k + 2, n - 1)))
            } else {
                None
            }
        },
    }
}

fn contains_path(present: &Vec<String>, p: &String) -> (r: bool)
    ensures
        r == present@.map_values(|s: String| s@).contains(p@),
{
    let ghost ps = present@.map_values(|s: String| s@);
    let mut i: usize = 0;
    while i < present.len()
        invariant
            i <= present@.len(),
            ps == present@.map_values(|s: String| s@),
            forall|j: int| 0 <= j < i ==> ps[j] != p@,
        decreases present@.len() - i,
    {
        if present[i] == *p {
            assert(ps[i as int] == p@);
            return true;
        }
        i = i + 1;
    }
    false
}

/// One matched reference, resolved as `image_resolved` says.
fn resolve_one(m: &Vec<char>, syntax: ImageSyntax, base: &str, present: &Vec<String>) -> (r: Vec<
    char,
>)
    ensures
        r@ == image_resolved(m@, syntax, base@, present@.map_values(|s: String| s@)),
{
    match parts(m, syntax) {
        Some((alt, src)) => {
            if remote(&src) {
                return slice_of(m, 0, m.len());
            }
            let src_str = string_of(&src);
            let abs = joined_path(base, src_str.as_str());
            if !contains_path(present, &abs) {
                return slice_of(m, 0, m.len());
            }
            let abs_chars = chars_of(abs.as_str());
            let mut out: Vec<char> = Vec::new();
            match syntax {
                ImageSyntax::Html => {
                    let head = vec!['<', 'i', 'm', 'g', ' ', 's', 'r', 'c', '=', '"'];
                    push_all(&mut out, &head);
                    push_all(&mut out, &file_scheme_chars());
                    push_all(&mut out, &abs_chars);
                    out.push('"');
                },
                ImageSyntax::Markdown => {
                    out.push('!');
                    out.push('[');
                    push_all(&mut out, &alt);
                    out.push(']');
                    out.push('(');
                    push_all(&mut out, &file_scheme_chars());
                    push_all(&mut out, &abs_chars);
                    out.push(')');
                },
            }
            assert(out@ =~= image_at(syntax, alt@, abs@));
            out
        },
        None => slice_of(m, 0, m.len()),
    }
}

/// Rewrites each local image reference of `text` whose path, joined to
/// `base_dir`, is among `present`; leaves every other reference as it is.
pub fn resolve_images_among(
    text: &str,
    syntax: ImageSyntax,
    base_dir: &str,
    present: &Vec<String>,
) -> (r: String)
    ensures
        r@ == images_resolved(text@, syntax, base_dir@, present@.map_values(|s: String| s@)),
{
    let pattern = match syntax {
        ImageSyntax::Html => IMG_TAG_PATTERN,
        ImageSyntax::Markdown => MD_IMAGE_PATTERN,
    };
    let pieces = match split_matches(pattern, text) {
        Some(ps) => ps,
        None => {
            return text.to_string();
        },
    };
    let ghost ps = pieces@.map_values(|p: String| p@);
    let ghost pr = present@.map_values(|s: String| s@);
    let mut out: Vec<char> = Vec::new();
    let mut i: usize = 0;
    while i < pieces.len()
        invariant
            i <= pieces@.len(),
            ps == pieces@.map_values(|p: String| p@),
            pr == present@.map_values(|s: String| s@),
            out@ == join_images(ps.subrange(0, i as int), syntax, base_dir@, pr),
        decreases pieces@.len() - i,
    {
        proof {
            assert(ps.subrange(0, i + 1).drop_last() == ps.subrange(0, i as int));
        }
        let cs = chars_of(pieces[i].as_str());
        if i % 2 == 1 {
            let resolved = resolve_one(&cs, syntax, base_dir, present);
            push_all(&mut out, &resolved);
        } else {
            push_all(&mut out, &cs);
        }
        i = i + 1;
    }
    assert(ps.subrange(0, ps.len() as int) == ps);
    string_of(&out)
}

/// The joined paths of the local references in `text` that exist on disk.
fn existing_targets(text: &str, syntax: ImageSyntax, base_dir: &str) -> (r: Vec<String>) {
    let pattern = match syntax {
        ImageSyntax::Html => IMG_TAG_PATTERN,
        ImageSyntax::Markdown => MD_IMAGE_PATTERN,
    };
    let mut found: Vec<String> = Vec::new();
    let pieces = match split_matches(pattern, text) {
        Some(ps) => ps,
        None => {
            return found;
        },
    };
    let mut i: usize = 0;
    while i < pieces.len()
        decreases pieces@.len() - i,
    {
        if i % 2 == 1 {
            let cs = chars_of(pieces[i].as_str());
            if let Some((_alt, src)) = parts(&cs, syntax) {
                if !remote(&src) {
                    let src_str = string_of(&src);
                    let abs = joined_path(base_dir, src_str.as_str());
                    if path_exists(abs.as_str()) {
                        found.push(abs);
                    }
                }
            }
        }
        i = i + 1;
    }
    found
}

/// Rewrites each local image reference of `text` whose target exists under
/// `base_dir` to an absolute `file://` location. Which paths exist is read
/// from the disk; whatever it says, the result is `text` resolved against
/// some set of existing paths.
pub fn resolve_local(text: &str, syntax: ImageSyntax, base_dir: &str) -> (r: String)
    ensures
        exists|present: Seq<Seq<char>>| r@ == images_resolved(text@, syntax, base_dir@, present),
{
    let present = existing_targets(text, syntax, base_dir);
    resolve_images_among(text, syntax, base_dir, &present)
}

/// Resolves the `<img src="...">` references of rendered HTML.
pub fn resolve_local_images(html: &str, base_dir: &str) -> (r: String)
    ensures
        exists|present: Seq<Seq<char>>|
            r@ == images_resolved(html@, ImageSyntax::Html, base_dir@, present),
{
    resolve_local(html, ImageSyntax::Html, base_dir)
}

/// Resolves the `![alt](target)` references of Markdown source.
pub fn resolve_local_image_paths(markdown: &str, base_dir: &str) -> (r: String)
    ensures
        exists|present: Seq<Seq<char>>|
            r@ == images_resolved(markdown@, ImageSyntax::Markdown, base_dir@, present),
{
    resolve_local(markdown, ImageSyntax::Markdown, base_dir)
}

} // verus!
