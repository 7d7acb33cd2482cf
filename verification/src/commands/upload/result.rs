//! The outcome of an upload and how it reads to a person.

use vstd::prelude::*;
use crate::files::UploadFile;
use crate::text::{decimal, plural, plural_of, push_decimal};
use crate::units::{byte_size, byte_size_text};

verus! {

/// How many files an upload covers and their combined size in bytes.
pub struct Totals {
    pub count: usize,
    pub size: u64,
}

/// A file that could not be uploaded.
pub struct UploadError {
    pub doc_id: String,
    pub path: Option<String>,
    pub error: String,
}

/// What an upload did.
pub enum UploadOutcome {
    NoFiles { message: String },
    DryRun { totals: Totals, files: Vec<UploadFile> },
    Skipped { totals: Totals },
    Uploaded { totals: Totals, uploaded: usize, errors: Vec<UploadError>, processed: Option<bool> },
}

/// The result of `topk upload`.
pub struct UploadResult(pub UploadOutcome);

/// One indented line per file id.
pub open spec fn doc_id_lines(files: Seq<UploadFile>) -> Seq<char>
    decreases files.len(),
{
    if files.len() == 0 {
        Seq::empty()
    } else {
        doc_id_lines(files.drop_last()) + "  "@ + files.last().doc_id@ + "\n"@
    }
}

/// `"<n> file"` or `"<n> files"`.
pub open spec fn file_count(n: nat) -> Seq<char> {
    decimal(n) + " "@ + plural_of(n, "file"@, "files"@)
}

/// The text an upload outcome shows a person.
pub open spec fn render_outcome(o: UploadOutcome) -> Seq<char> {
    match o {
        UploadOutcome::NoFiles { message } => message@,
        UploadOutcome::Skipped { .. } => "Upload skipped."@,
        UploadOutcome::DryRun { totals, files } =>
            "Dry run: upload "@ + file_count(totals.count as nat) + " ("@
                + byte_size_text(totals.size) + "):\n"@ + doc_id_lines(files@),
        UploadOutcome::Uploaded { uploaded, processed, .. } => match processed {
            Some(true) => "Uploaded and processed "@ + file_count(uploaded as nat) + "."@,
            Some(false) => "Uploaded "@ + file_count(uploaded as nat) + "; processing skipped."@,
            None => Seq::empty(),
        },
    }
}

/// Appends `"<n> file"` or `"<n> files"`.
fn push_file_count(out: &mut String, n: usize)
    ensures
        final(out)@ == old(out)@ + file_count(n as nat),
{
    push_decimal(out, n as u64);
    out.append(" ");
    out.append(plural(n, "file", "files"));
}

impl UploadResult {
    /// The text shown to a person. Without `--wait` a finished upload says nothing.
    pub fn render(&self) -> (r: String)
        ensures
            r@ == render_outcome(self.0),
    {
        match &self.0 {
            UploadOutcome::NoFiles { message } => message.clone(),
            UploadOutcome::Skipped { .. } => "Upload skipped.".to_owned(),
            UploadOutcome::DryRun { totals, files } => {
                let mut out = "Dry run: upload ".to_owned();
                push_file_count(&mut out, totals.count);
                out.append(" (");
                let size = byte_size(totals.size);
                out.append(size.as_str());
                out.append("):\n");
                let ghost head = out@;
                let mut i: usize = 0;
                while i < files.len()
                    invariant
                        i <= files@.len(),
                        out@ == head + doc_id_lines(files@.take(i as int)),
                    decreases files.len() - i,
                {
                    let ghost t = files@.take(i + 1);
                    assert(t.drop_last() =~= files@.take(i as int));
                    out.append("  ");
                    out.append(files[i].doc_id.as_str());
                    out.append("\n");
                    i = i + 1;
                }
                assert(files@.take(files@.len() as int) =~= files@);
                out
            },
            UploadOutcome::Uploaded { uploaded, processed, .. } => match processed {
                Some(true) => {
                    let mut out = "Uploaded and processed ".to_owned();
                    push_file_count(&mut out, *uploaded);
                    out.append(".");
                    out
                },
                Some(false) => {
                    let mut out = "Uploaded ".to_owned();
                    push_file_count(&mut out, *uploaded);
                    out.append("; processing skipped.");
                    out
                },
                None => String::new(),
            },
        }
    }
}


/// A finished upload reads as processed only when processing was waited
/// for to the end; a skipped wait says so, and without a wait nothing is said.
pub proof fn law_uploaded_wording(totals: Totals, uploaded: usize, errors: Vec<UploadError>, processed: Option<bool>)
    ensures
        processed == Some(true) ==> render_outcome(UploadOutcome::Uploaded { totals, uploaded, errors, processed })
            == "Uploaded and processed "@ + decimal(uploaded as nat) + " "@ + plural_of(uploaded as nat, "file"@, "files"@) + "."@,
        processed == Some(false) ==> render_outcome(UploadOutcome::Uploaded { totals, uploaded, errors, processed })
            == "Uploaded "@ + decimal(uploaded as nat) + " "@ + plural_of(uploaded as nat, "file"@, "files"@) + "; processing skipped."@,
        processed is None ==> render_outcome(UploadOutcome::Uploaded { totals, uploaded, errors, processed }).len() == 0,
{
}

} // verus!
