//! Splitting a Markdown document into sections at heading lines.
//!
//! A heading line is one or more `#` followed at once by a space. Each
//! section holds its lines, each ended by a newline; a new section starts at
//! every heading line but the document's first line.

use vstd::prelude::*;
use crate::text::{chars_of, string_of, push_all};

verus! {

/// `l` without one trailing carriage return.
pub open spec fn strip_cr(l: Seq<char>) -> Seq<char> {
    if l.len() > 0 && l.last() == '\r' {
        l.drop_last()
    } else {
        l
    }
}

/// The lines finished so far and the line still open after reading `s`.
pub open spec fn line_state(s: Seq<char>) -> (Seq<Seq<char>>, Seq<char>)
    decreases s.len(),
{
    if s.len() == 0 {
        (Seq::empty(), Seq::empty())
    } else {
        let (done, cur) = line_state(s.drop_last());
        if s.last() == '\n' {
            (done.push(strip_cr(cur)), Seq::empty())
        } else {
            (done, cur.push(s.last()))
        }
    }
}

/// The lines of a text: split at `\n`, a `\r` before the `\n` dropped, and no
/// empty last line after a final newline.
pub open spec fn lines_of(s: Seq<char>) -> Seq<Seq<char>> {
    let (done, cur) = line_state(s);
    if cur.len() > 0 {
        done.push(cur)
    } else {
        done
    }
}

/// The first index at or after `i` that does not hold `#`.
pub open spec fn hashes_end(l: Seq<char>, i: int) -> int
    decreases l.len() - i,
{
    if 0 <= i < l.len() && l[i] == '#' {
        hashes_end(l, i + 1)
    } else {
        i
    }
}

/// A line that opens a section: a run of `#` and then a space.
pub open spec fn is_heading_line(l: Seq<char>) -> bool {
    l.len() > 0 && l[0] == '#' && hashes_end(l, 0) < l.len() && l[hashes_end(l, 0)] == ' '
}

/// The sections closed so far and the one still open after reading the lines `ls`.
pub open spec fn section_state(ls: Seq<Seq<char>>) -> (Seq<Seq<char>>, Seq<char>)
    decreases ls.len(),
{
    if ls.len() == 0 {
        (Seq::empty(), Seq::empty())
    } else {
        let (done, cur) = section_state(ls.drop_last());
        let l = ls.last();
        if is_heading_line(l) && cur.len() > 0 {
            (done.push(cur), l.push('\n'))
        } else {
            (done, cur + l.push('\n'))
        }
    }
}

/// The sections of a document given as lines.
pub open spec fn sections_of(ls: Seq<Seq<char>>) -> Seq<Seq<char>> {
    let (done, cur) = section_state(ls);
    if cur.len() > 0 {
        done.push(cur)
    } else {
        done
    }
}

/// Whether content comes before the first heading: the first line is no heading line.
pub open spec fn preamble_of(ls: Seq<Seq<char>>) -> bool {
    ls.len() > 0 && !is_heading_line(ls[0])
}

/// The number of heading lines among `ls`.
pub open spec fn heading_count(ls: Seq<Seq<char>>) -> nat
    decreases ls.len(),
{
    if ls.len() == 0 {
        0
    } else {
        heading_count(ls.drop_last()) + if is_heading_line(ls.last()) { 1nat } else { 0nat }
    }
}

proof fn lemma_section_state_count(ls: Seq<Seq<char>>)
    requires
        ls.len() > 0,
    ensures
        section_state(ls).1.len() > 0,
        section_state(ls).0.len() + (if is_heading_line(ls[0]) { 1int } else { 0int })
            == heading_count(ls),
    decreases ls.len(),
{
    let prev = ls.drop_last();
    if ls.len() > 1 {
        lemma_section_state_count(prev);
        assert(prev[0] == ls[0]);
    } else {
        assert(prev.len() == 0);
        assert(section_state(prev).0.len() == 0 && section_state(prev).1.len() == 0);
        assert(heading_count(prev) == 0);
    }
}

/// There is one section per heading line, and one more for content before
/// the first heading, if there is any. So with a table of contents that
/// lists exactly the heading lines, entry `i` belongs to section `i`, or to
/// section `i + 1` where there is a preamble.
pub proof fn lemma_sections_match_headings(ls: Seq<Seq<char>>)
    ensures
        sections_of(ls).len() == heading_count(ls) + if preamble_of(ls) { 1nat } else { 0nat },
{
    if ls.len() > 0 {
        lemma_section_state_count(ls);
    }
}

/// The lines, each ended by a newline, one after another.
pub open spec fn joined_lines(ls: Seq<Seq<char>>) -> Seq<char>
    decreases ls.len(),
{
    if ls.len() == 0 {
        Seq::empty()
    } else {
        joined_lines(ls.drop_last()) + ls.last().push('\n')
    }
}

/// The sections, one after another.
pub open spec fn flatten(ss: Seq<Seq<char>>) -> Seq<char>
    decreases ss.len(),
{
    if ss.len() == 0 {
        Seq::empty()
    } else {
        flatten(ss.drop_last()) + ss.last()
    }
}

proof fn lemma_section_state_joined(ls: Seq<Seq<char>>)
    ensures
        flatten(section_state(ls).0) + section_state(ls).1 == joined_lines(ls),
    decreases ls.len(),
{
    if ls.len() > 0 {
        let prev = ls.drop_last();
        lemma_section_state_joined(prev);
        let (done, cur) = section_state(prev);
        let l = ls.last().push('\n');
        if is_heading_line(ls.last()) && cur.len() > 0 {
            assert(done.push(cur).drop_last() == done);
            assert(flatten(done.push(cur)) == flatten(done) + cur);
        }
        assert(flatten(done) + (cur + l) =~= (flatten(done) + cur) + l);
    } else {
        assert(flatten(Seq::<Seq<char>>::empty()) + Seq::<char>::empty() =~= Seq::<char>::empty());
    }
}

/// Splitting loses, adds and reorders nothing: the sections, one after
/// another, are the document's lines, each ended by a newline.
pub proof fn lemma_sections_keep_every_line(ls: Seq<Seq<char>>)
    ensures
        flatten(sections_of(ls)) == joined_lines(ls),
{
    lemma_section_state_joined(ls);
    let (done, cur) = section_state(ls);
    if cur.len() > 0 {
        assert(done.push(cur).drop_last() == done);
    } else {
        assert(flatten(done) + cur =~= flatten(done));
    }
}

/// Whether `l` is a heading line.
fn heading_line(l: &Vec<char>) -> (r: bool)
    ensures
        r == is_heading_line(l@),
{
    if l.len() == 0 || l[0] != '#' {
        return false;
    }
    let mut k: usize = 0;
    while k < l.len() && l[k] == '#'
        invariant
            k <= l@.len(),
            hashes_end(l@, 0) == hashes_end(l@, k as int),
        decreases l@.len() - k,
    {
        k = k + 1;
    }
    k < l.len() && l[k] == ' '
}

/// The lines of `cs`.
fn split_lines(cs: &Vec<char>) -> (r: Vec<Vec<char>>)
    ensures
        r@.map_values(|v: Vec<char>| v@) == lines_of(cs@),
{
    let mut done: Vec<Vec<char>> = Vec::new();
    let mut cur: Vec<char> = Vec::new();
    let mut i: usize = 0;
    while i < cs.len()
        invariant
            i <= cs@.len(),
            (done@.map_values(|v: Vec<char>| v@), cur@) == line_state(cs@.subrange(0, i as int)),
        decreases cs@.len() - i,
    {
        let c = cs[i];
        proof {
            assert(cs@.subrange(0, i + 1).drop_last() == cs@.subrange(0, i as int));
        }
        if c == '\n' {
            let ghost prev = done@;
            if cur.len() > 0 && cur[cur.len() - 1] == '\r' {
                cur.pop();
            }
            done.push(cur);
            cur = Vec::new();
            assert(done@.map_values(|v: Vec<char>| v@) == prev.map_values(|v: Vec<char>| v@).push(
                done@.last()@,
            ));
        } else {
            cur.push(c);
        }
        i = i + 1;
    }
    assert(cs@.subrange(0, cs@.len() as int) == cs@);
    if cur.len() > 0 {
        let ghost prev = done@;
        done.push(cur);
        assert(done@.map_values(|v: Vec<char>| v@) == prev.map_values(|v: Vec<char>| v@).push(
            done@.last()@,
        ));
    }
    done
}

/// Splits a document into sections at heading lines. Returns whether there is
/// content before the first heading, and the sections in order.
pub fn split_by_headings(markdown: &str) -> (r: (bool, Vec<String>))
    ensures
        r.0 == preamble_of(lines_of(markdown@)),
        r.1@.map_values(|s: String| s@) == sections_of(lines_of(markdown@)),
{
    let cs = chars_of(markdown);
    let lines = split_lines(&cs);
    let ghost ls = lines@.map_values(|v: Vec<char>| v@);
    let mut done: Vec<String> = Vec::new();
    let mut cur: Vec<char> = Vec::new();
    let mut i: usize = 0;
    while i < lines.len()
        invariant
            i <= lines@.len(),
            ls == lines@.map_values(|v: Vec<char>| v@),
            (done@.map_values(|s: String| s@), cur@) == section_state(ls.subrange(0, i as int)),
        decreases lines@.len() - i,
    {
        let l = &lines[i];
        proof {
            assert(ls.subrange(0, i + 1).drop_last() == ls.subrange(0, i as int));
            assert(ls.subrange(0, i + 1).last() == l@);
        }
        if heading_line(l) && cur.len() > 0 {
            let ghost prev = done@;
            let s = string_of(&cur);
            done.push(s);
            cur = Vec::new();
            assert(done@.map_values(|s: String| s@) == prev.map_values(|s: String| s@).push(
                done@.last()@,
            ));
        }
        push_all(&mut cur, l);
        cur.push('\n');
        i = i + 1;
    }
    assert(ls.subrange(0, ls.len() as int) == ls);
    if cur.len() > 0 {
        let ghost prev = done@;
        let s = string_of(&cur);
        done.push(s);
        assert(done@.map_values(|s: String| s@) == prev.map_values(|s: String| s@).push(
            done@.last()@,
        ));
    }
    let has_preamble = lines.len() > 0 && !heading_line(&lines[0]);
    (has_preamble, done)
}

} // verus!
