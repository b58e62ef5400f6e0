//! Live reload: change notifications coalesced into one reparse per poll,
//! and the viewer state that each reparse replaces as a whole.

use vstd::prelude::*;
use crate::toc::{TocEntry, toc_of, extract_toc};
use crate::sections::{lines_of, preamble_of, sections_of, split_by_headings};
use crate::images::{ImageSyntax, images_resolved, resolve_local_image_paths};

verus! {

/// Change notifications that arrived since the last poll. A notification
/// carries nothing but the fact that the file has changed.
#[derive(Clone, Copy, Debug, PartialEq, Eq)]
pub struct ChangeQueue {
    pub pending: usize,
}

/// The queue after one more notification (the count stops at its largest value).
pub open spec fn notified(q: ChangeQueue) -> ChangeQueue {
    ChangeQueue { pending: if q.pending < usize::MAX { (q.pending + 1) as usize } else { q.pending } }
}

/// The queue after `n` notifications.
pub open spec fn notified_times(q: ChangeQueue, n: nat) -> ChangeQueue
    decreases n,
{
    if n == 0 {
        q
    } else {
        notified(notified_times(q, (n - 1) as nat))
    }
}

/// How many of `polls` successive polls from `q` ask for a reparse, with no
/// notification between them.
pub open spec fn reparse_count(q: ChangeQueue, polls: nat) -> nat
    decreases polls,
{
    if polls == 0 {
        0
    } else {
        (if q.pending > 0 { 1nat } else { 0nat }) + reparse_count(
            ChangeQueue { pending: 0 },
            (polls - 1) as nat,
        )
    }
}

impl ChangeQueue {
    /// A queue with nothing pending.
    pub fn new() -> (r: ChangeQueue)
        ensures
            r.pending == 0,
    {
        ChangeQueue { pending: 0 }
    }

    /// Records one change notification.
    pub fn notify(&mut self)
        ensures
            *final(self) == notified(*old(self)),
    {
        if self.pending < usize::MAX {
            self.pending = self.pending + 1;
        }
    }

    /// Drains every pending notification; returns whether a reparse is due,
    /// which is so when at least one notification was pending.
    pub fn poll(&mut self) -> (reparse: bool)
        ensures
            reparse == (old(self).pending > 0),
            final(self).pending == 0,
    {
        let reparse = self.pending > 0;
        self.pending = 0;
        reparse
    }
}

proof fn lemma_notified_pending(q: ChangeQueue, n: nat)
    requires
        n >= 1,
    ensures
        notified_times(q, n).pending > 0,
    decreases n,
{
    if n > 1 {
        lemma_notified_pending(q, (n - 1) as nat);
    }
}

proof fn lemma_idle_polls(polls: nat)
    ensures
        reparse_count(ChangeQueue { pending: 0 }, polls) == 0,
    decreases polls,
{
    if polls > 0 {
        lemma_idle_polls((polls - 1) as nat);
    }
}

/// A burst of notifications, however many, that arrives before a poll leads
/// to exactly one reparse over that poll and any number of later ones.
pub proof fn lemma_burst_coalesces(n: nat, polls: nat)
    requires
        n >= 1,
        polls >= 1,
    ensures
        reparse_count(notified_times(ChangeQueue { pending: 0 }, n), polls) == 1,
{
    lemma_notified_pending(ChangeQueue { pending: 0 }, n);
    lemma_idle_polls((polls - 1) as nat);
}

/// The complete result of one parse pass, for the section-by-section view:
/// the table of contents, whether content comes before the first heading,
/// and the sections.
#[derive(Clone, Debug)]
pub struct Snapshot {
    pub toc: Vec<TocEntry>,
    pub has_preamble: bool,
    pub sections: Vec<String>,
}

impl Snapshot {
    pub open spec fn toc_view(&self) -> Seq<(u8, Seq<char>, Seq<char>)> {
        self.toc@.map_values(|e: TocEntry| e@)
    }

    pub open spec fn sections_view(&self) -> Seq<Seq<char>> {
        self.sections@.map_values(|s: String| s@)
    }
}

/// `s` is what a parse of `content` gives: its table of contents, and the
/// sections of the content with its image references resolved against
/// `base` (for some set of existing paths).
pub open spec fn is_snapshot_of(s: Snapshot, content: Seq<char>, base: Seq<char>) -> bool {
    &&& s.toc_view() == toc_of(content)
    &&& exists|present: Seq<Seq<char>>|
        #![trigger images_resolved(content, ImageSyntax::Markdown, base, present)]
        {
        let md = images_resolved(content, ImageSyntax::Markdown, base, present);
        s.has_preamble == preamble_of(lines_of(md)) && s.sections_view() == sections_of(lines_of(md))
    }
}

/// Parses `content` into a snapshot, resolving image references against `base_dir`.
pub fn build_snapshot(content: &str, base_dir: &str) -> (r: Snapshot)
    ensures
        is_snapshot_of(r, content@, base_dir@),
{
    let toc = extract_toc(content);
    let markdown = resolve_local_image_paths(content, base_dir);
    let (has_preamble, sections) = split_by_headings(markdown.as_str());
    Snapshot { toc, has_preamble, sections }
}

/// The section that table-of-contents entry `i` scrolls to: past the
/// preamble, where there is one.
pub open spec fn section_for(has_preamble: bool, i: int) -> int {
    if has_preamble {
        i + 1
    } else {
        i
    }
}

/// What a viewer shows: the current snapshot, and a one-shot request to
/// scroll to a section that the next render pass takes.
#[derive(Clone, Debug)]
pub struct Viewer {
    pub snapshot: Snapshot,
    pub scroll_target: Option<usize>,
}

impl Viewer {
    /// A viewer of `snapshot`, with no scroll requested.
    pub fn new(snapshot: Snapshot) -> (r: Viewer)
        ensures
            r.snapshot == snapshot,
            r.scroll_target.is_none(),
    {
        Viewer { snapshot, scroll_target: None }
    }

    /// Takes in the outcome of re-reading the file: a new snapshot replaces
    /// the old one whole; a failed read (`None`) keeps the old one. A pending
    /// scroll request stays.
    pub fn apply_reload(&mut self, fresh: Option<Snapshot>)
        ensures
            final(self).snapshot == (match fresh {
                Some(s) => s,
                None => old(self).snapshot,
            }),
            final(self).scroll_target == old(self).scroll_target,
    {
        if let Some(s) = fresh {
            self.snapshot = s;
        }
    }

    /// Re-reads after a change: parses `read` when the read succeeded.
    pub fn reload(&mut self, read: Option<String>, base_dir: &str)
        ensures
            match read {
                Some(c) => is_snapshot_of(final(self).snapshot, c@, base_dir@),
                None => final(self).snapshot == old(self).snapshot,
            },
            final(self).scroll_target == old(self).scroll_target,
    {
        match read {
            Some(content) => {
                let s = build_snapshot(content.as_str(), base_dir);
                self.apply_reload(Some(s));
            },
            None => {
                self.apply_reload(None);
            },
        }
    }

    /// Table-of-contents entry `i` was chosen: asks the next render pass to
    /// scroll to its section.
    pub fn select_toc_entry(&mut self, i: usize)
        requires
            i < old(self).snapshot.toc@.len(),
        ensures
            final(self).snapshot == old(self).snapshot,
            final(self).scroll_target == Some(
                section_for(old(self).snapshot.has_preamble, i as int) as usize,
            ),
    {
        let n = self.snapshot.toc.len();
        assert(i < n);
        let idx = if self.snapshot.has_preamble {
            i + 1
        } else {
            i
        };
        self.scroll_target = Some(idx);
    }

    /// Takes the pending scroll request, if any; it is then gone.
    pub fn take_scroll_target(&mut self) -> (r: Option<usize>)
        ensures
            r == old(self).scroll_target,
            final(self).scroll_target.is_none(),
            final(self).snapshot == old(self).snapshot,
    {
        self.scroll_target.take()
    }
}

} // verus!
