//! `topk list`: the documents of a dataset, laid out for the terminal's width.

use vstd::prelude::*;
use crate::commands::search::opt_str;
use crate::paint::{green, red, yellow, green_code, red_code, yellow_code, shows};
use crate::text::{chars_of, join, join_seqs, same_text, string_of, views};
use crate::units::{byte_size, byte_size_text};

verus! {

/// One document of a dataset.
pub struct ListEntry {
    pub id: String,
    pub name: String,
    /// Size in bytes.
    pub size: u64,
    pub mime_type: String,
    pub status: String,
    pub status_reason: Option<String>,
    /// Metadata fields, each value as JSON text.
    pub metadata: Vec<(String, String)>,
}

/// The documents of a dataset.
pub struct ListResult {
    pub entries: Vec<ListEntry>,
}

/// The arguments of `topk list`.
pub struct ListArgs {
    /// Dataset to list documents from
    pub dataset: String,
    /// Metadata fields to include
    pub fields: Option<Vec<String>>,
}

/// How the list is laid out.
#[derive(PartialEq, Eq, Structural, Clone, Copy, Debug)]
pub enum Layout {
    /// A table with name, id, status, size and type.
    Full,
    /// A table with shortened name and id, status and size.
    Compact,
    /// One block of lines per document.
    Stacked,
}

/// What to draw: plain text, or the cells of a full or compact table.
pub enum ListView {
    Text(String),
    FullTable(Vec<Vec<String>>),
    CompactTable(Vec<Vec<String>>),
}

/// The label of a status: known statuses capitalised, with the reason in
/// parentheses when there is one.
pub open spec fn status_label(status: Seq<char>, reason: Option<Seq<char>>) -> Seq<char> {
    let base = if status == "pending"@ {
        "Pending"@
    } else if status == "ready"@ {
        "Ready"@
    } else if status == "error"@ {
        "Error"@
    } else {
        status
    };
    match reason {
        Some(r) => base + " ("@ + r + ")"@,
        None => base,
    }
}

/// `out` is the status as shown: pending in yellow, ready in green, error in
/// red, anything else plain.
pub open spec fn status_shown(status: Seq<char>, reason: Option<Seq<char>>, out: Seq<char>) -> bool {
    let label = status_label(status, reason);
    if status == "pending"@ {
        shows(yellow_code(), label, out)
    } else if status == "ready"@ {
        shows(green_code(), label, out)
    } else if status == "error"@ {
        shows(red_code(), label, out)
    } else {
        out == label
    }
}

/// A document's status, labelled and coloured.
pub fn render_status(status: &str, reason: Option<&str>) -> (r: String)
    ensures
        status_shown(status@, opt_str(reason), r@),
{
    let is_pending = same_text(status, "pending");
    let is_ready = same_text(status, "ready");
    let is_error = same_text(status, "error");
    let mut label = if is_pending {
        "Pending".to_owned()
    } else if is_ready {
        "Ready".to_owned()
    } else if is_error {
        "Error".to_owned()
    } else {
        status.to_owned()
    };
    match reason {
        Some(r) => {
            label.append(" (");
            label.append(r);
            label.append(")");
        },
        None => {},
    }
    assert(label@ == status_label(status@, opt_str(reason)));
    if is_pending {
        yellow(label.as_str())
    } else if is_ready {
        green(label.as_str())
    } else if is_error {
        red(label.as_str())
    } else {
        label
    }
}

/// `value` cut to at most `max_chars` characters, the last one an ellipsis
/// when anything was cut.
pub open spec fn truncated(value: Seq<char>, max_chars: nat) -> Seq<char> {
    if value.len() <= max_chars {
        value
    } else if max_chars <= 1 {
        seq!['\u{2026}']
    } else {
        value.take(max_chars - 1).push('\u{2026}')
    }
}

/// Shortens `value` to `max_chars` characters, ending in an ellipsis when
/// it was longer.
pub fn truncate_with_ellipsis(value: &str, max_chars: usize) -> (r: String)
    ensures
        r@ == truncated(value@, max_chars as nat),
{
    let len = value.unicode_len();
    if len <= max_chars {
        return value.to_owned();
    }
    if max_chars <= 1 {
        let one: Vec<char> = vec!['\u{2026}'];
        let r = string_of(&one);
        assert(r@ =~= seq!['\u{2026}']);
        return r;
    }
    let cs = chars_of(value);
    let mut kept: Vec<char> = Vec::new();
    let mut i: usize = 0;
    while i < max_chars - 1
        invariant
            max_chars - 1 < cs@.len(),
            cs@ == value@,
            i <= max_chars - 1,
            kept@ =~= cs@.take(i as int),
        decreases max_chars - 1 - i,
    {
        kept.push(cs[i]);
        i = i + 1;
    }
    kept.push('\u{2026}');
    string_of(&kept)
}

/// The layout for a terminal `width` columns wide.
pub open spec fn layout_of(width: u16) -> Layout {
    if width >= 120 {
        Layout::Full
    } else if width >= 80 {
        Layout::Compact
    } else {
        Layout::Stacked
    }
}

/// The layout for a terminal `width` columns wide: a full table from 120
/// columns, a compact one from 80, else stacked blocks.
pub fn layout_for_width(width: u16) -> (r: Layout)
    ensures
        r == layout_of(width),
{
    if width >= 120 {
        Layout::Full
    } else if width >= 80 {
        Layout::Compact
    } else {
        Layout::Stacked
    }
}

/// The optional status reason of an entry, as characters.
pub open spec fn reason_of(e: ListEntry) -> Option<Seq<char>> {
    match e.status_reason {
        Some(r) => Some(r@),
        None => None,
    }
}

/// `row` is the full-table row of `e`: name, id, status, size, type.
pub open spec fn full_row(e: ListEntry, row: Seq<Seq<char>>) -> bool {
    &&& row.len() == 5
    &&& row[0] == e.name@
    &&& row[1] == e.id@
    &&& status_shown(e.status@, reason_of(e), row[2])
    &&& row[3] == byte_size_text(e.size)
    &&& row[4] == e.mime_type@
}

/// `row` is the compact-table row of `e`: name cut to 40 characters, id cut
/// to 16, status, size.
pub open spec fn compact_row(e: ListEntry, row: Seq<Seq<char>>) -> bool {
    &&& row.len() == 4
    &&& row[0] == truncated(e.name@, 40)
    &&& row[1] == truncated(e.id@, 16)
    &&& status_shown(e.status@, reason_of(e), row[2])
    &&& row[3] == byte_size_text(e.size)
}

/// `out` is the stacked block of `e`.
pub open spec fn stacked_block(e: ListEntry, out: Seq<char>) -> bool {
    exists|s: Seq<char>| status_shown(e.status@, reason_of(e), s)
        && #[trigger] (e.name@ + "\n  id: "@ + e.id@ + "\n  status: "@ + s + "\n  size: "@
            + byte_size_text(e.size) + "\n  type: "@ + e.mime_type@) == out
}

/// `out` is every entry's stacked block, separated by blank lines.
pub open spec fn renders_stacked(entries: Seq<ListEntry>, out: Seq<char>) -> bool {
    exists|parts: Seq<Seq<char>>| parts.len() == entries.len()
        && (forall|i: int| 0 <= i < entries.len() ==> stacked_block(entries[i], #[trigger] parts[i]))
        && #[trigger] join_seqs(parts, "\n\n"@) == out
}

fn entry_status(e: &ListEntry) -> (r: String)
    ensures
        status_shown(e.status@, reason_of(*e), r@),
{
    match &e.status_reason {
        Some(reason) => render_status(e.status.as_str(), Some(reason.as_str())),
        None => render_status(e.status.as_str(), None),
    }
}

/// Every entry as a block of lines, separated by blank lines.
pub fn render_stacked_entries(entries: &Vec<ListEntry>) -> (r: String)
    ensures
        renders_stacked(entries@, r@),
{
    let mut parts: Vec<String> = Vec::new();
    let n = entries.len();
    let mut i: usize = 0;
    while i < n
        invariant
            n == entries@.len(),
            i <= n,
            parts@.len() == i,
            forall|j: int| 0 <= j < i ==> stacked_block(entries@[j], #[trigger] parts@[j]@),
        decreases n - i,
    {
        let e = &entries[i];
        let status = entry_status(e);
        let size = byte_size(e.size);
        let mut s = e.name.clone();
        s.append("\n  id: ");
        s.append(e.id.as_str());
        s.append("\n  status: ");
        s.append(status.as_str());
        s.append("\n  size: ");
        s.append(size.as_str());
        s.append("\n  type: ");
        s.append(e.mime_type.as_str());
        assert(e.name@ + "\n  id: "@ + e.id@ + "\n  status: "@ + status@ + "\n  size: "@
            + byte_size_text(e.size) + "\n  type: "@ + e.mime_type@ == s@);
        parts.push(s);
        i = i + 1;
    }
    let r = join(&parts, "\n\n");
    assert(views(parts@).len() == n);
    assert forall|j: int| 0 <= j < entries@.len() implies stacked_block(entries@[j], #[trigger] views(parts@)[j]) by {
        assert(views(parts@)[j] == parts@[j]@);
    }
    r
}

/// The cells of the full table, one row per entry.
pub fn full_table_rows(entries: &Vec<ListEntry>) -> (rows: Vec<Vec<String>>)
    ensures
        rows@.len() == entries@.len(),
        forall|i: int| 0 <= i < entries@.len() ==> full_row(entries@[i], #[trigger] views(rows@[i]@)),
{
    let mut rows: Vec<Vec<String>> = Vec::new();
    let mut i: usize = 0;
    while i < entries.len()
        invariant
            i <= entries@.len(),
            rows@.len() == i,
            forall|j: int| 0 <= j < i ==> full_row(entries@[j], #[trigger] views(rows@[j]@)),
        decreases entries.len() - i,
    {
        let e = &entries[i];
        let mut row: Vec<String> = Vec::new();
        row.push(e.name.clone());
        row.push(e.id.clone());
        row.push(entry_status(e));
        row.push(byte_size(e.size));
        row.push(e.mime_type.clone());
        assert(full_row(*e, views(row@)));
        rows.push(row);
        i = i + 1;
    }
    rows
}

/// The cells of the compact table, one row per entry.
pub fn compact_table_rows(entries: &Vec<ListEntry>) -> (rows: Vec<Vec<String>>)
    ensures
        rows@.len() == entries@.len(),
        forall|i: int| 0 <= i < entries@.len() ==> compact_row(entries@[i], #[trigger] views(rows@[i]@)),
{
    let mut rows: Vec<Vec<String>> = Vec::new();
    let mut i: usize = 0;
    while i < entries.len()
        invariant
            i <= entries@.len(),
            rows@.len() == i,
            forall|j: int| 0 <= j < i ==> compact_row(entries@[j], #[trigger] views(rows@[j]@)),
        decreases entries.len() - i,
    {
        let e = &entries[i];
        let mut row: Vec<String> = Vec::new();
        row.push(truncate_with_ellipsis(e.name.as_str(), 40));
        row.push(truncate_with_ellipsis(e.id.as_str(), 16));
        row.push(entry_status(e));
        row.push(byte_size(e.size));
        assert(compact_row(*e, views(row@)));
        rows.push(row);
        i = i + 1;
    }
    rows
}

/// `v` is what to draw for `entries` on a terminal `width` columns wide:
/// `No documents.` when there are none, else the layout's table cells or
/// stacked blocks.
pub open spec fn shows_list(entries: Seq<ListEntry>, width: u16, v: ListView) -> bool {
    if entries.len() == 0 {
        v matches ListView::Text(t) && t@ == "No documents."@
    } else {
        match layout_of(width) {
            Layout::Full => match v {
                ListView::FullTable(rows) => rows@.len() == entries.len()
                    && forall|i: int| 0 <= i < rows@.len() ==> full_row(entries[i], #[trigger] views(rows@[i]@)),
                _ => false,
            },
            Layout::Compact => match v {
                ListView::CompactTable(rows) => rows@.len() == entries.len()
                    && forall|i: int| 0 <= i < rows@.len() ==> compact_row(entries[i], #[trigger] views(rows@[i]@)),
                _ => false,
            },
            Layout::Stacked => match v {
                ListView::Text(t) => renders_stacked(entries, t@),
                _ => false,
            },
        }
    }
}

impl ListResult {
    /// What to draw on a terminal `width` columns wide: `No documents.` when
    /// there are none, else the layout's table cells or stacked blocks.
    pub fn view(&self, width: u16) -> (r: ListView)
        ensures
            shows_list(self.entries@, width, r),
    {
        if self.entries.len() == 0 {
            return ListView::Text("No documents.".to_owned());
        }
        match layout_for_width(width) {
            Layout::Full => ListView::FullTable(full_table_rows(&self.entries)),
            Layout::Compact => ListView::CompactTable(compact_table_rows(&self.entries)),
            Layout::Stacked => ListView::Text(render_stacked_entries(&self.entries)),
        }
    }
}

} // verus!
