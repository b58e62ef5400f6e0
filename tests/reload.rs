use mdr::reload::{build_snapshot, ChangeQueue, Viewer};

#[test]
fn burst_of_five_gives_one_reparse() {
    let mut q = ChangeQueue::new();
    for _ in 0..5 {
        q.notify();
    }
    let mut reparses = 0;
    for _ in 0..3 {
        if q.poll() {
            reparses += 1;
        }
    }
    assert_eq!(reparses, 1);
}

#[test]
fn poll_without_notification_is_idle() {
    let mut q = ChangeQueue::new();
    assert!(!q.poll());
    q.notify();
    assert!(q.poll());
    assert_eq!(q.pending, 0);
}

#[test]
fn snapshot_of_document() {
    let s = build_snapshot("Intro text\n# A\nbody a\n## B\nbody b\n", ".");
    assert!(s.has_preamble);
    assert_eq!(s.sections, vec!["Intro text\n", "# A\nbody a\n", "## B\nbody b\n"]);
    assert_eq!(s.toc.len(), 2);
    assert_eq!(s.toc[1].anchor, "b");
}

#[test]
fn failed_read_keeps_snapshot_and_good_read_replaces_it() {
    let mut v = Viewer::new(build_snapshot("# Old\n", "."));
    v.reload(None, ".");
    assert_eq!(v.snapshot.sections, vec!["# Old\n"]);
    v.reload(Some("pre\n# New\n".to_string()), ".");
    assert_eq!(v.snapshot.sections, vec!["pre\n", "# New\n"]);
    assert_eq!(v.snapshot.toc[0].text, "New");
}

#[test]
fn toc_click_maps_past_preamble_and_is_one_shot() {
    let mut v = Viewer::new(build_snapshot("pre\n# A\n# B\n", "."));
    v.select_toc_entry(1);
    assert_eq!(v.take_scroll_target(), Some(2));
    assert_eq!(v.take_scroll_target(), None);
    let mut w = Viewer::new(build_snapshot("# A\n# B\n", "."));
    w.select_toc_entry(1);
    assert_eq!(w.take_scroll_target(), Some(1));
}

#[test]
fn reload_keeps_pending_scroll_request() {
    let mut v = Viewer::new(build_snapshot("# A\n# B\n", "."));
    v.select_toc_entry(0);
    v.reload(Some("# C\n".to_string()), ".");
    assert_eq!(v.scroll_target, Some(0));
}
