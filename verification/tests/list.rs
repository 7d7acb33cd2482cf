use topk_cli::commands::list::{
    compact_table_rows, full_table_rows, layout_for_width, render_stacked_entries, render_status,
    truncate_with_ellipsis, Layout, ListEntry, ListResult, ListView,
};

fn plain() {
    colored::control::set_override(false);
}

fn entry(name: &str, status: &str, reason: Option<&str>) -> ListEntry {
    ListEntry {
        id: "doc-1".to_string(),
        name: name.to_string(),
        size: 2048,
        mime_type: "application/pdf".to_string(),
        status: status.to_string(),
        status_reason: reason.map(|r| r.to_string()),
        metadata: vec![],
    }
}

#[test]
fn known_statuses_are_capitalised() {
    plain();
    assert_eq!(render_status("pending", None), "Pending");
    assert_eq!(render_status("ready", None), "Ready");
    assert_eq!(render_status("error", Some("bad file")), "Error (bad file)");
}

#[test]
fn unknown_status_is_shown_as_is() {
    plain();
    assert_eq!(render_status("queued", Some("later")), "queued (later)");
}

#[test]
fn short_values_are_kept() {
    assert_eq!(truncate_with_ellipsis("abc", 3), "abc");
    assert_eq!(truncate_with_ellipsis("", 0), "");
}

#[test]
fn long_values_end_in_an_ellipsis() {
    assert_eq!(truncate_with_ellipsis("abcdef", 4), "abc\u{2026}");
    assert_eq!(truncate_with_ellipsis("h\u{e9}llo", 2), "h\u{2026}");
}

#[test]
fn tiny_limits_give_only_an_ellipsis() {
    assert_eq!(truncate_with_ellipsis("abcdef", 1), "\u{2026}");
    assert_eq!(truncate_with_ellipsis("abcdef", 0), "\u{2026}");
}

#[test]
fn layout_follows_the_terminal_width() {
    assert_eq!(layout_for_width(200), Layout::Full);
    assert_eq!(layout_for_width(120), Layout::Full);
    assert_eq!(layout_for_width(119), Layout::Compact);
    assert_eq!(layout_for_width(80), Layout::Compact);
    assert_eq!(layout_for_width(79), Layout::Stacked);
}

#[test]
fn stacked_entries_are_blocks_separated_by_blank_lines() {
    plain();
    let r = render_stacked_entries(&vec![entry("a.pdf", "ready", None), entry("b.pdf", "pending", Some("ocr"))]);
    assert_eq!(
        r,
        "a.pdf\n  id: doc-1\n  status: Ready\n  size: 2.0 KB\n  type: application/pdf\n\n\
         b.pdf\n  id: doc-1\n  status: Pending (ocr)\n  size: 2.0 KB\n  type: application/pdf"
    );
}

#[test]
fn table_rows_hold_the_cells() {
    plain();
    let entries = vec![entry("a-very-long-document-name-that-goes-on-and-on-forever.pdf", "error", None)];
    let full = full_table_rows(&entries);
    assert_eq!(full[0], vec!["a-very-long-document-name-that-goes-on-and-on-forever.pdf", "doc-1", "Error", "2.0 KB", "application/pdf"]);
    let compact = compact_table_rows(&entries);
    assert_eq!(compact[0][0].chars().count(), 40);
    assert!(compact[0][0].ends_with('\u{2026}'));
    assert_eq!(compact[0].len(), 4);
}

#[test]
fn empty_list_reads_no_documents() {
    let r = ListResult { entries: vec![] };
    match r.view(100) {
        ListView::Text(t) => assert_eq!(t, "No documents."),
        _ => panic!("expected text"),
    }
}

#[test]
fn narrow_terminals_get_stacked_blocks() {
    plain();
    let r = ListResult { entries: vec![entry("a.pdf", "ready", None)] };
    match r.view(60) {
        ListView::Text(t) => assert!(t.starts_with("a.pdf\n  id: doc-1")),
        _ => panic!("expected stacked text"),
    }
    match r.view(100) {
        ListView::CompactTable(rows) => assert_eq!(rows.len(), 1),
        _ => panic!("expected a compact table"),
    }
    match r.view(150) {
        ListView::FullTable(rows) => assert_eq!(rows[0].len(), 5),
        _ => panic!("expected a full table"),
    }
}
