//! `topk upload`: choosing the files, reporting progress and the outcome.

pub mod plan;
pub mod progress;
pub mod result;
pub mod uploading;

use vstd::prelude::*;
use crate::digest::{hex_lower, sha256_digest, sha256_hex};
use crate::files::UploadFile;
use crate::text::{decimal, plural, plural_of, push_decimal, same_text};
use crate::units::{byte_size, byte_size_text};
use uploading::FileUpload;
use vstd::string::StringSliceAdditionalSpecFns;

verus! {

/// A file that could not be uploaded.
pub struct UploadError {
    pub doc_id: String,
    pub path: Option<String>,
    pub error: String,
}

/// What an upload run did: how many files it covered, how many went up,
/// which failed, and whether processing was waited for.
pub struct UploadResult {
    pub total: usize,
    pub uploaded: usize,
    pub errors: Vec<UploadError>,
    pub processed: Option<bool>,
}

/// The text an upload result shows a person.
pub open spec fn upload_result_text(total: nat, uploaded: nat, processed: Option<bool>) -> Seq<char> {
    if total == 0 {
        "No files found for upload."@
    } else if uploaded == 0 {
        "Upload skipped."@
    } else if processed == Some(true) {
        "Uploaded and processed "@ + decimal(uploaded) + " "@ + plural_of(uploaded, "file"@, "files"@) + "."@
    } else {
        "Uploaded "@ + decimal(uploaded) + " "@ + plural_of(uploaded, "file"@, "files"@) + "."@
    }
}

impl UploadResult {
    /// The text shown to a person.
    pub fn render(&self) -> (r: String)
        ensures
            r@ == upload_result_text(self.total as nat, self.uploaded as nat, self.processed),
            self.total > 0 && self.uploaded > 0 && self.processed == Some(true) ==>
                r@ == "Uploaded and processed "@ + decimal(self.uploaded as nat) + " "@
                    + plural_of(self.uploaded as nat, "file"@, "files"@) + "."@,
            self.total > 0 && self.uploaded > 0 && self.processed != Some(true) ==>
                r@ == "Uploaded "@ + decimal(self.uploaded as nat) + " "@
                    + plural_of(self.uploaded as nat, "file"@, "files"@) + "."@,
    {
        if self.total == 0 {
            return "No files found for upload.".to_owned();
        }
        if self.uploaded == 0 {
            return "Upload skipped.".to_owned();
        }
        let mut out = match self.processed {
            Some(true) => "Uploaded and processed ".to_owned(),
            _ => "Uploaded ".to_owned(),
        };
        push_decimal(&mut out, self.uploaded as u64);
        out.append(" ");
        out.append(plural(self.uploaded, "file", "files"));
        out.append(".");
        out
    }
}


/// An upload says it was processed only when processing was waited for to
/// the end: a skipped wait (`Some(false)`) or no wait (`None`) reads
/// "Uploaded <n> file(s).", and nothing but `Some(true)` reads "Uploaded and
/// processed <n> file(s).". With nothing planned or nothing uploaded the
/// wording does not depend on processing at all.
pub proof fn law_processed_wording(total: nat, uploaded: nat, processed: Option<bool>)
    ensures
        total > 0 && uploaded > 0 && processed == Some(true) ==> upload_result_text(total, uploaded, processed)
            == "Uploaded and processed "@ + decimal(uploaded) + " "@ + plural_of(uploaded, "file"@, "files"@) + "."@,
        total > 0 && uploaded > 0 && processed != Some(true) ==> upload_result_text(total, uploaded, processed)
            == "Uploaded "@ + decimal(uploaded) + " "@ + plural_of(uploaded, "file"@, "files"@) + "."@,
        total > 0 && uploaded > 0 ==> upload_result_text(total, uploaded, Some(false)) == upload_result_text(total, uploaded, None),
        total == 0 || uploaded == 0 ==> upload_result_text(total, uploaded, processed) == upload_result_text(total, uploaded, None),
{
}

/// Whether some file in `s` already carries the id `id`.
pub open spec fn has_doc_id(s: Seq<UploadFile>, id: Seq<char>) -> bool {
    exists|i: int| 0 <= i < s.len() && #[trigger] s[i].doc_id@ == id
}

/// The files of `s` in order, each id kept at its first occurrence only.
pub open spec fn first_by_doc_id(s: Seq<UploadFile>) -> Seq<UploadFile>
    decreases s.len(),
{
    if s.len() == 0 {
        s
    } else {
        let rest = first_by_doc_id(s.drop_last());
        if has_doc_id(rest, s.last().doc_id@) { rest } else { rest.push(s.last()) }
    }
}

/// The matches of every pattern, one pattern after another.
pub open spec fn concat_batches(batches: Seq<Vec<UploadFile>>) -> Seq<UploadFile>
    decreases batches.len(),
{
    if batches.len() == 0 {
        Seq::empty()
    } else {
        concat_batches(batches.drop_last()) + batches.last()@
    }
}

fn contains_doc_id(files: &Vec<UploadFile>, id: &str) -> (r: bool)
    ensures
        r == has_doc_id(files@, id@),
{
    let mut j: usize = 0;
    while j < files.len()
        invariant
            j <= files@.len(),
            forall|k: int| 0 <= k < j ==> files@[k].doc_id@ != id@,
        decreases files.len() - j,
    {
        if same_text(files[j].doc_id.as_str(), id) {
            return true;
        }
        j = j + 1;
    }
    false
}

/// Merges the files matched by each pattern, in pattern order, keeping each
/// document id once, at its first match.
pub fn make_upload_plan(resolved: Vec<Vec<UploadFile>>) -> (r: Vec<UploadFile>)
    ensures
        r@ == first_by_doc_id(concat_batches(resolved@)),
{
    let mut all: Vec<UploadFile> = Vec::new();
    let mut b: usize = 0;
    while b < resolved.len()
        invariant
            b <= resolved@.len(),
            all@ == concat_batches(resolved@.take(b as int)),
        decreases resolved.len() - b,
    {
        let ghost t = resolved@.take(b + 1);
        assert(t.drop_last() =~= resolved@.take(b as int));
        let batch = &resolved[b as usize];
        let ghost start = all@;
        let mut k: usize = 0;
        while k < batch.len()
            invariant
                k <= batch@.len(),
                all@ == start + batch@.take(k as int),
            decreases batch.len() - k,
        {
            all.push(batch[k].clone());
            assert(all@ =~= start + batch@.take(k + 1));
            k = k + 1;
        }
        assert(batch@.take(batch@.len() as int) =~= batch@);
        b = b + 1;
    }
    assert(resolved@.take(resolved@.len() as int) =~= resolved@);
    let mut files: Vec<UploadFile> = Vec::new();
    let mut i: usize = 0;
    while i < all.len()
        invariant
            i <= all@.len(),
            files@ == first_by_doc_id(all@.take(i as int)),
        decreases all.len() - i,
    {
        let ghost t = all@.take(i + 1);
        assert(t.drop_last() =~= all@.take(i as int));
        if !contains_doc_id(&files, all[i].doc_id.as_str()) {
            files.push(all[i].clone());
        }
        i = i + 1;
    }
    assert(all@.take(all@.len() as int) =~= all@);
    files
}

/// The plan never holds two files with the same document id.
pub proof fn law_plan_ids_unique(s: Seq<UploadFile>)
    ensures
        forall|i: int, j: int| 0 <= i < j < first_by_doc_id(s).len()
            ==> #[trigger] first_by_doc_id(s)[i].doc_id@ != #[trigger] first_by_doc_id(s)[j].doc_id@,
    decreases s.len(),
{
    if s.len() > 0 {
        law_plan_ids_unique(s.drop_last());
        let rest = first_by_doc_id(s.drop_last());
        if !has_doc_id(rest, s.last().doc_id@) {
            let r = rest.push(s.last());
            assert forall|i: int, j: int| 0 <= i < j < r.len() implies #[trigger] r[i].doc_id@ != #[trigger] r[j].doc_id@ by {
                if j == r.len() - 1 {
                    assert(r[i] == rest[i]);
                } else {
                    assert(r[i] == rest[i]);
                    assert(r[j] == rest[j]);
                }
            }
        }
    }
}

/// Every document id that any pattern matched is in the plan.
pub proof fn law_plan_keeps_every_id(s: Seq<UploadFile>, k: int)
    requires
        0 <= k < s.len(),
    ensures
        has_doc_id(first_by_doc_id(s), s[k].doc_id@),
    decreases s.len(),
{
    let rest = first_by_doc_id(s.drop_last());
    if k < s.len() - 1 {
        assert(s[k] == s.drop_last()[k]);
        law_plan_keeps_every_id(s.drop_last(), k);
        if !has_doc_id(rest, s.last().doc_id@) {
            let i = choose|i: int| 0 <= i < rest.len() && #[trigger] rest[i].doc_id@ == s[k].doc_id@;
            assert(rest.push(s.last())[i] == rest[i]);
        }
    } else {
        if !has_doc_id(rest, s.last().doc_id@) {
            assert(rest.push(s.last())[rest.len() as int] == s.last());
        }
    }
}

/// Human-friendly summary text for the end of the upload phase.
pub fn progress_summary(total: usize, uploaded: usize, failed: usize) -> (r: String)
    ensures
        r@ == progress::summary_text(total as nat, uploaded as nat, failed as nat),
{
    progress::summary(total, uploaded, failed)
}

/// The document id of a file: the SHA-256 of its canonical path, in hex.
pub fn doc_id_from_path(canonical_path: &str) -> (r: String)
    ensures
        r@ == hex_lower(sha256_digest(canonical_path.spec_bytes())),
{
    sha256_hex(canonical_path)
}

/// How many attempts succeeded.
pub open spec fn count_ok(s: Seq<FileUpload>) -> nat
    decreases s.len(),
{
    if s.len() == 0 {
        0
    } else {
        count_ok(s.drop_last()) + if s.last().result is Ok { 1nat } else { 0nat }
    }
}

/// The failures, as upload errors, in attempt order.
pub open spec fn failures(s: Seq<FileUpload>) -> Seq<UploadError>
    decreases s.len(),
{
    if s.len() == 0 {
        Seq::empty()
    } else {
        let rest = failures(s.drop_last());
        match s.last().result {
            Ok(_) => rest,
            Err(e) => rest.push(UploadError { doc_id: s.last().doc_id, path: Some(s.last().path), error: e }),
        }
    }
}

proof fn lemma_count_ok_bound(s: Seq<FileUpload>)
    ensures
        count_ok(s) <= s.len(),
    decreases s.len(),
{
    if s.len() > 0 {
        lemma_count_ok_bound(s.drop_last());
    }
}

/// The result of a run that uploaded: `total` files planned, and what each
/// attempt gave.
pub fn finished_upload(total: usize, uploads: Vec<FileUpload>, processed: Option<bool>) -> (r: UploadResult)
    ensures
        r.total == total,
        r.uploaded == count_ok(uploads@),
        r.errors@ == failures(uploads@),
        r.processed == processed,
{
    let mut uploaded: usize = 0;
    let mut errors: Vec<UploadError> = Vec::new();
    let n = uploads.len();
    let mut i: usize = 0;
    while i < n
        invariant
            n == uploads@.len(),
            i <= n,
            uploaded == count_ok(uploads@.take(i as int)),
            errors@ == failures(uploads@.take(i as int)),
        decreases n - i,
    {
        let ghost t = uploads@.take(i + 1);
        assert(t.drop_last() =~= uploads@.take(i as int));
        proof {
            lemma_count_ok_bound(t);
        }
        let f = &uploads[i];
        match &f.result {
            Ok(_) => {
                uploaded = uploaded + 1;
            },
            Err(e) => {
                errors.push(UploadError { doc_id: f.doc_id.clone(), path: Some(f.path.clone()), error: e.clone() });
            },
        }
        i = i + 1;
    }
    assert(uploads@.take(n as int) =~= uploads@);
    UploadResult { total, uploaded, errors, processed }
}

/// What to do about waiting for processing once the files are up.
pub enum WaitStep {
    /// Wait: `--wait` was given.
    Wait,
    /// Ask the person with this question, and wait if they agree.
    Ask(String),
    /// Do not wait.
    Skip,
}

/// Decides whether to wait for processing: always with `--wait`; otherwise
/// ask, but only in human mode and when something was uploaded.
pub fn wait_step(wait: bool, human: bool, uploaded: usize) -> (r: WaitStep)
    ensures
        wait ==> r is Wait,
        !wait && human && uploaded > 0 ==> (r matches WaitStep::Ask(q) && q@ == "Wait for processing of "@
            + decimal(uploaded as nat) + " uploaded "@ + plural_of(uploaded as nat, "file"@, "files"@) + "? "@),
        !wait && !(human && uploaded > 0) ==> r is Skip,
{
    if wait {
        WaitStep::Wait
    } else if human && uploaded > 0 {
        let mut q = "Wait for processing of ".to_owned();
        push_decimal(&mut q, uploaded as u64);
        q.append(" uploaded ");
        q.append(plural(uploaded, "file", "files"));
        q.append("? ");
        WaitStep::Ask(q)
    } else {
        WaitStep::Skip
    }
}


/// The question asked before uploading `count` files of `size` bytes in all.
pub fn upload_prompt(count: usize, size: u64, dataset: &str) -> (r: String)
    ensures
        r@ == "Upload "@ + decimal(count as nat) + " "@ + plural_of(count as nat, "file"@, "files"@) + " ("@
            + byte_size_text(size) + ") to '"@ + dataset@ + "' dataset? "@,
{
    let mut q = "Upload ".to_owned();
    push_decimal(&mut q, count as u64);
    q.append(" ");
    q.append(plural(count, "file", "files"));
    q.append(" (");
    let shown = byte_size(size);
    q.append(shown.as_str());
    q.append(") to '");
    q.append(dataset);
    q.append("' dataset? ");
    q
}

/// How many uploads run at once: the number asked for, and at least one.
pub fn effective_concurrency(concurrency: u64) -> (r: usize)
    ensures
        r == (if concurrency as usize == 0 { 1 } else { concurrency as usize }),
        r >= 1,
{
    let c = concurrency as usize;
    if c == 0 { 1 } else { c }
}

} // verus!
