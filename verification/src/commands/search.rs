//! `topk search`: the results and how they read to a person.

use vstd::prelude::*;
use crate::paint::{blue, dimmed, blue_code, dimmed_code, shows, no_escape, lemma_no_escape_parts, lemma_plain_when_no_escape};
use crate::paths::{display_path, shown_path};
use crate::text::{decimal, decimal_string, join, join_seqs, push_decimal, same_text, views};
use crate::units::{byte_size, byte_size_text};

verus! {

/// An image returned as search content.
pub struct Image {
    pub mime_type: String,
    pub data: Vec<u8>,
}

/// What a search hit holds.
pub enum Content {
    Chunk { text: String, doc_pages: Vec<u32> },
    Image(Image),
    Page { page_number: u32, image: Option<Image> },
}

/// One search hit.
pub struct SearchResult {
    pub doc_id: String,
    pub doc_type: String,
    pub dataset: String,
    pub content_id: String,
    pub doc_name: String,
    pub content: Option<Content>,
}

/// The hits of a search, best first.
pub struct SearchResults {
    pub results: Vec<SearchResult>,
}

/// The search arguments the tool acts on.
pub struct SearchArgs {
    /// Search query (read from stdin when absent)
    pub query: Option<String>,
    /// Datasets to search
    pub datasets: Vec<String>,
    /// Number of results to return
    pub top_k: u32,
    /// Metadata fields to include in results
    pub fields: Option<Vec<String>>,
    /// Directory to save result content to
    pub output_dir: Option<String>,
}

/// Page numbers separated by commas.
pub open spec fn pages_text(pages: Seq<u32>) -> Seq<char> {
    join_seqs(pages.map_values(|p: u32| decimal(p as nat)), ","@)
}

/// A one-line description of a hit's content.
pub open spec fn content_text(c: Content) -> Seq<char> {
    match c {
        Content::Chunk { text, doc_pages } => if doc_pages@.len() == 0 {
            text@
        } else {
            text@ + " [p."@ + pages_text(doc_pages@) + "]"@
        },
        Content::Page { page_number, .. } => "<page "@ + decimal(page_number as nat) + ">"@,
        Content::Image(img) => "<image "@ + img.mime_type@ + " "@ + byte_size_text(img.data@.len() as u64) + ">"@,
    }
}

/// A one-line description of a hit's content.
pub fn format_content_text(content: &Content) -> (r: Option<String>)
    ensures
        r matches Some(s) && s@ == content_text(*content),
{
    match content {
        Content::Chunk { text, doc_pages } => {
            if doc_pages.len() == 0 {
                Some(text.clone())
            } else {
                let mut pages: Vec<String> = Vec::new();
                let mut i: usize = 0;
                while i < doc_pages.len()
                    invariant
                        i <= doc_pages@.len(),
                        views(pages@) =~= doc_pages@.take(i as int).map_values(|p: u32| decimal(p as nat)),
                    decreases doc_pages.len() - i,
                {
                    let ghost before = pages@;
                    pages.push(decimal_string(doc_pages[i] as u64));
                    assert(doc_pages@.take(i + 1) =~= doc_pages@.take(i as int).push(doc_pages@[i as int]));
                    assert(views(pages@) =~= views(before).push(decimal(doc_pages@[i as int] as nat)));
                    i = i + 1;
                }
                assert(doc_pages@.take(doc_pages@.len() as int) =~= doc_pages@);
                let mut s = text.clone();
                s.append(" [p.");
                let joined = join(&pages, ",");
                s.append(joined.as_str());
                s.append("]");
                Some(s)
            }
        },
        Content::Page { page_number, .. } => {
            let mut s = "<page ".to_owned();
            push_decimal(&mut s, *page_number as u64);
            s.append(">");
            Some(s)
        },
        Content::Image(img) => {
            let mut s = "<image ".to_owned();
            s.append(img.mime_type.as_str());
            s.append(" ");
            let size = byte_size(img.data.len() as u64);
            s.append(size.as_str());
            s.append(">");
            Some(s)
        },
    }
}

/// The line under a hit's header: the chunk text, or, when no file was
/// saved for it, a placeholder describing other content.
pub open spec fn detail_of(result: SearchResult, has_path: bool) -> Option<Seq<char>> {
    match result.content {
        Some(Content::Chunk { text, .. }) => Some(text@),
        Some(c) => if !has_path { Some(content_text(c)) } else { None },
        None => None,
    }
}

/// The ref tag `"[<ref_id>]"`.
pub open spec fn ref_tag(ref_id: Seq<char>) -> Seq<char> {
    "["@ + ref_id + "]"@
}

/// A hit as shown, given how each styled piece came out (`p`): the ref tag,
/// the `dataset=`, `id=`, `type=` and `file=` labels, and the detail line.
pub open spec fn result_text(result: SearchResult, shown: Option<Seq<char>>, p: Seq<Seq<char>>) -> Seq<char> {
    let header = p[0] + " "@ + p[1] + result.dataset@ + " "@ + p[2] + result.doc_id@ + " "@ + p[3] + result.doc_type@;
    let header = match shown {
        Some(path) => header + " "@ + p[4] + path,
        None => header,
    };
    match detail_of(result, shown is Some) {
        Some(_) => header + "\n"@ + p[5],
        None => header,
    }
}

/// Each piece of `p` is its plain text as `colored` prints it in its style.
pub open spec fn pieces_shown(ref_id: Seq<char>, result: SearchResult, has_path: bool, p: Seq<Seq<char>>) -> bool {
    &&& p.len() == 6
    &&& shows(blue_code(), ref_tag(ref_id), p[0])
    &&& shows(dimmed_code(), "dataset="@, p[1])
    &&& shows(dimmed_code(), "id="@, p[2])
    &&& shows(dimmed_code(), "type="@, p[3])
    &&& (has_path ==> shows(dimmed_code(), "file="@, p[4]))
    &&& match detail_of(result, has_path) {
        Some(d) => shows(dimmed_code(), d, p[5]),
        None => true,
    }
}

/// `out` is `result` rendered under `ref_id`, the saved file shown as `shown`.
pub open spec fn renders_result(ref_id: Seq<char>, result: SearchResult, shown: Option<Seq<char>>, out: Seq<char>) -> bool {
    exists|p: Seq<Seq<char>>| pieces_shown(ref_id, result, shown is Some, p) && #[trigger] result_text(result, shown, p) == out
}

/// The view of an optional string slice.
pub open spec fn opt_str(o: Option<&str>) -> Option<Seq<char>> {
    match o {
        Some(s) => Some(s@),
        None => None,
    }
}

/// Renders one hit: a header with its ref tag, dataset, id and type (and the
/// saved file, when there is one), then its text or a description of its content.
pub fn render_search_result(ref_id: &str, result: &SearchResult, path: Option<&str>, cwd: Option<&str>) -> (r: String)
    ensures
        renders_result(ref_id@, *result, match path {
            Some(p) => Some(shown_path(p@, opt_str(cwd))),
            None => None,
        }, r@),
        match result.content {
            Some(Content::Chunk { text, .. }) => ends_with_line(r@, text@),
            Some(Content::Page { page_number, .. }) => path is None ==>
                ends_with_line(r@, "<page "@ + decimal(page_number as nat) + ">"@),
            Some(Content::Image(img)) => path is None ==>
                ends_with_line(r@, "<image "@ + img.mime_type@ + " "@ + byte_size_text(img.data@.len() as u64) + ">"@),
            None => true,
        },
{
    let ghost shown = match path {
        Some(p) => Some(shown_path(p@, opt_str(cwd))),
        None => None::<Seq<char>>,
    };
    let detail: Option<String> = match &result.content {
        Some(Content::Chunk { text, .. }) => Some(text.clone()),
        Some(c) => if path.is_none() { format_content_text(c) } else { None },
        None => None,
    };
    let mut tag = "[".to_owned();
    tag.append(ref_id);
    tag.append("]");
    let p0 = blue(tag.as_str());
    let p1 = dimmed("dataset=");
    let p2 = dimmed("id=");
    let p3 = dimmed("type=");
    let mut header = p0.clone();
    header.append(" ");
    header.append(p1.as_str());
    header.append(result.dataset.as_str());
    header.append(" ");
    header.append(p2.as_str());
    header.append(result.doc_id.as_str());
    header.append(" ");
    header.append(p3.as_str());
    header.append(result.doc_type.as_str());
    let mut p4 = String::new();
    match path {
        Some(p) => {
            p4 = dimmed("file=");
            header.append(" ");
            header.append(p4.as_str());
            let shown_p = display_path(p, cwd);
            header.append(shown_p.as_str());
        },
        None => {},
    }
    let mut p5 = String::new();
    match &detail {
        Some(d) => {
            p5 = dimmed(d.as_str());
            header.append("\n");
            header.append(p5.as_str());
        },
        None => {},
    }
    let ghost p = seq![p0@, p1@, p2@, p3@, p4@, p5@];
    assert(pieces_shown(ref_id@, *result, path is Some, p));
    assert(result_text(*result, shown, p) == header@);
    proof {
        law_detail_line(ref_id@, *result, shown, header@);
    }
    header
}

/// Renders every hit, numbered from 1, separated by blank lines; the saved
/// file of a hit is looked up in `paths` by its number.
pub open spec fn renders_results(results: Seq<SearchResult>, paths: Seq<(String, String)>, cwd: Option<Seq<char>>, out: Seq<char>) -> bool {
    exists|parts: Seq<Seq<char>>| parts.len() == results.len()
        && (forall|i: int| 0 <= i < results.len() ==> renders_result(decimal((i + 1) as nat), results[i],
            match path_for(paths, decimal((i + 1) as nat)) {
                Some(p) => Some(shown_path(p, cwd)),
                None => None,
            }, #[trigger] parts[i]))
        && #[trigger] join_seqs(parts, "\n\n"@) == out
}

/// The path recorded for `ref_id`, the first one if several are.
pub open spec fn path_for(paths: Seq<(String, String)>, ref_id: Seq<char>) -> Option<Seq<char>>
    decreases paths.len(),
{
    if paths.len() == 0 {
        None
    } else if paths[0].0@ == ref_id {
        Some(paths[0].1@)
    } else {
        path_for(paths.drop_first(), ref_id)
    }
}

/// The path recorded for `ref_id`.
pub fn find_path<'a>(paths: &'a Vec<(String, String)>, ref_id: &str) -> (r: Option<&'a str>)
    ensures
        opt_str(r) == path_for(paths@, ref_id@),
{
    let mut i: usize = 0;
    assert(paths@.skip(0) =~= paths@);
    while i < paths.len()
        invariant
            i <= paths@.len(),
            path_for(paths@, ref_id@) == path_for(paths@.skip(i as int), ref_id@),
        decreases paths.len() - i,
    {
        assert(paths@.skip(i as int).drop_first() =~= paths@.skip(i + 1));
        if same_text(paths[i].0.as_str(), ref_id) {
            return Some(paths[i].1.as_str());
        }
        i = i + 1;
    }
    None
}

impl SearchResults {
    /// Every hit, numbered from 1, separated by blank lines.
    pub fn render(&self, paths: &Vec<(String, String)>, cwd: Option<&str>) -> (r: String)
        ensures
            renders_results(self.results@, paths@, opt_str(cwd), r@),
    {
        let mut parts: Vec<String> = Vec::new();
        let n = self.results.len();
        let mut i: usize = 0;
        while i < n
            invariant
                n == self.results@.len(),
                i <= n,
                parts@.len() == i,
                forall|j: int| 0 <= j < i ==> renders_result(decimal((j + 1) as nat), self.results@[j],
                    match path_for(paths@, decimal((j + 1) as nat)) {
                        Some(p) => Some(shown_path(p, opt_str(cwd))),
                        None => None,
                    }, #[trigger] parts@[j]@),
            decreases n - i,
        {
            let ref_id = decimal_string((i + 1) as u64);
            let path = find_path(paths, ref_id.as_str());
            let part = render_search_result(ref_id.as_str(), &self.results[i], path, cwd);
            parts.push(part);
            i = i + 1;
        }
        let r = join(&parts, "\n\n");
        assert(views(parts@).len() == n);
        assert forall|j: int| 0 <= j < self.results@.len() implies renders_result(decimal((j + 1) as nat), self.results@[j],
            match path_for(paths@, decimal((j + 1) as nat)) {
                Some(p) => Some(shown_path(p, opt_str(cwd))),
                None => None,
            }, #[trigger] views(parts@)[j]) by {
            assert(views(parts@)[j] == parts@[j]@);
        }
        r
    }
}


/// The pieces of a hit as printed without colour.
pub open spec fn plain_pieces(ref_id: Seq<char>, result: SearchResult, has_path: bool) -> Seq<Seq<char>> {
    seq![ref_tag(ref_id), "dataset="@, "id="@, "type="@, "file="@, match detail_of(result, has_path) {
        Some(d) => d,
        None => Seq::empty(),
    }]
}

/// A hit rendered without any escape character (colours off) is exactly
/// its plain text: `[<ref>] dataset=.. id=.. type=..`, then ` file=<path>`
/// when a file was saved, then the detail line when there is one.
pub proof fn law_plain_render(ref_id: Seq<char>, result: SearchResult, shown: Option<Seq<char>>, out: Seq<char>)
    requires
        renders_result(ref_id, result, shown, out),
        no_escape(out),
    ensures
        out == result_text(result, shown, plain_pieces(ref_id, result, shown is Some)),
{
    let p = choose|p: Seq<Seq<char>>| pieces_shown(ref_id, result, shown is Some, p) && #[trigger] result_text(result, shown, p) == out;
    let q = plain_pieces(ref_id, result, shown is Some);
    lemma_no_escape_parts();
    let header = p[0] + " "@ + p[1] + result.dataset@ + " "@ + p[2] + result.doc_id@ + " "@ + p[3] + result.doc_type@;
    let header2 = match shown {
        Some(path) => header + " "@ + p[4] + path,
        None => header,
    };
    match detail_of(result, shown is Some) {
        Some(d) => {
            assert(no_escape(header2 + "\n"@ + p[5]));
            lemma_plain_when_no_escape(dimmed_code(), d, p[5]);
        },
        None => {},
    }
    assert(no_escape(header2));
    match shown {
        Some(path) => {
            assert(no_escape(header + " "@ + p[4] + path));
            lemma_plain_when_no_escape(dimmed_code(), "file="@, p[4]);
        },
        None => {},
    }
    assert(no_escape(header));
    lemma_plain_when_no_escape(dimmed_code(), "type="@, p[3]);
    lemma_plain_when_no_escape(dimmed_code(), "id="@, p[2]);
    lemma_plain_when_no_escape(dimmed_code(), "dataset="@, p[1]);
    lemma_plain_when_no_escape(blue_code(), ref_tag(ref_id), p[0]);
    assert(result_text(result, shown, q) == result_text(result, shown, p));
}


/// `out` ends in a line holding `text` as printed dimmed.
pub open spec fn ends_with_line(out: Seq<char>, text: Seq<char>) -> bool {
    exists|head: Seq<char>, line: Seq<char>| #![trigger head + "\n"@ + line]
        out == head + "\n"@ + line && shows(dimmed_code(), text, line)
}

/// Under its header a hit shows its chunk text; for other content, when no
/// file was saved for it, a description of it: `<page N>` for a page and
/// `<image MIME SIZE>` for an image.
pub proof fn law_detail_line(ref_id: Seq<char>, result: SearchResult, shown: Option<Seq<char>>, out: Seq<char>)
    requires
        renders_result(ref_id, result, shown, out),
    ensures
        match result.content {
            Some(Content::Chunk { text, .. }) => ends_with_line(out, text@),
            Some(Content::Page { page_number, .. }) => shown is None ==>
                ends_with_line(out, "<page "@ + decimal(page_number as nat) + ">"@),
            Some(Content::Image(img)) => shown is None ==>
                ends_with_line(out, "<image "@ + img.mime_type@ + " "@ + byte_size_text(img.data@.len() as u64) + ">"@),
            None => true,
        },
{
    let p = choose|p: Seq<Seq<char>>| pieces_shown(ref_id, result, shown is Some, p) && #[trigger] result_text(result, shown, p) == out;
    let header = p[0] + " "@ + p[1] + result.dataset@ + " "@ + p[2] + result.doc_id@ + " "@ + p[3] + result.doc_type@;
    let header2 = match shown {
        Some(path) => header + " "@ + p[4] + path,
        None => header,
    };
    match detail_of(result, shown is Some) {
        Some(d) => {
            assert(out == header2 + "\n"@ + p[5]);
            assert(shows(dimmed_code(), d, p[5]));
        },
        None => {},
    }
}

} // verus!
