//! The words shown while files upload and when the upload phase ends.

use vstd::prelude::*;
use super::result::UploadError;
use crate::text::{decimal, plural, plural_of, push_decimal};

verus! {

/// `"<uploaded>/<total> file(s) uploaded"`, with the failures when there are any.
pub open spec fn summary_text(total: nat, uploaded: nat, failed: nat) -> Seq<char> {
    decimal(uploaded) + "/"@ + decimal(total) + " "@ + plural_of(total, "file"@, "files"@)
        + " uploaded"@ + if failed == 0 {
        Seq::empty()
    } else {
        " ("@ + decimal(failed) + " failed)"@
    }
}

/// Human-friendly summary text for the end of the upload phase.
pub fn summary(total: usize, uploaded: usize, failed: usize) -> (r: String)
    ensures
        r@ == summary_text(total as nat, uploaded as nat, failed as nat),
{
    let mut out = String::new();
    push_decimal(&mut out, uploaded as u64);
    out.append("/");
    push_decimal(&mut out, total as u64);
    out.append(" ");
    out.append(plural(total, "file", "files"));
    out.append(" uploaded");
    if failed != 0 {
        out.append(" (");
        push_decimal(&mut out, failed as u64);
        out.append(" failed)");
    }
    out
}

/// The progress bar's message after `completed` uploads of which `failed` failed.
pub open spec fn progress_text(completed: u64, failed: u64, total: u64) -> Seq<char> {
    let succeeded: nat = if completed >= failed { (completed - failed) as nat } else { 0 };
    decimal(succeeded) + "/"@ + decimal(total as nat) + " uploaded"@ + if failed == 0 {
        Seq::empty()
    } else {
        ", "@ + decimal(failed as nat) + " failed"@
    }
}

/// The progress bar's message after `completed` uploads of which `failed` failed.
pub fn progress_message(completed: u64, failed: u64, total: u64) -> (r: String)
    ensures
        r@ == progress_text(completed, failed, total),
{
    let succeeded = completed.saturating_sub(failed);
    let mut out = String::new();
    push_decimal(&mut out, succeeded);
    out.append("/");
    push_decimal(&mut out, total);
    out.append(" uploaded");
    if failed != 0 {
        out.append(", ");
        push_decimal(&mut out, failed);
        out.append(" failed");
    }
    out
}

/// How a failed file is named in the report: its path, or its id when the path is unknown.
pub open spec fn label_of(e: UploadError) -> Seq<char> {
    match e.path {
        Some(p) => p@,
        None => e.doc_id@,
    }
}

/// The report line for a failed file: `"  <label>: <error>"`.
pub fn error_line(e: &UploadError) -> (r: String)
    ensures
        r@ == "  "@ + label_of(*e) + ": "@ + e.error@,
{
    let mut out = "  ".to_owned();
    match &e.path {
        Some(p) => out.append(p.as_str()),
        None => out.append(e.doc_id.as_str()),
    }
    out.append(": ");
    out.append(e.error.as_str());
    out
}


/// The counts behind the upload progress bar.
pub struct UploadCounts {
    pub total: u64,
    pub completed: u64,
    pub failed: u64,
}

impl UploadCounts {
    /// Nothing uploaded yet out of `total`.
    pub fn new(total: u64) -> (r: UploadCounts)
        ensures
            r.total == total,
            r.completed == 0,
            r.failed == 0,
    {
        UploadCounts { total, completed: 0, failed: 0 }
    }

    /// Counts one finished upload, failed unless `ok`, and gives the bar's
    /// new message.
    pub fn record(&mut self, ok: bool) -> (r: String)
        requires
            old(self).completed < u64::MAX,
            old(self).failed < u64::MAX,
        ensures
            final(self).total == old(self).total,
            final(self).completed == old(self).completed + 1,
            final(self).failed == old(self).failed + if ok { 0int } else { 1int },
            old(self).failed <= old(self).completed ==> final(self).failed <= final(self).completed,
            r@ == progress_text(final(self).completed, final(self).failed, final(self).total),
    {
        self.completed = self.completed + 1;
        if !ok {
            self.failed = self.failed + 1;
        }
        progress_message(self.completed, self.failed, self.total)
    }
}

/// The waiting spinner's message after `done` of `total` files were processed.
pub fn processed_message(done: u64, total: u64) -> (r: String)
    ensures
        r@ == decimal(done as nat) + "/"@ + decimal(total as nat) + " processed — press Enter to skip"@,
{
    let mut out = String::new();
    push_decimal(&mut out, done);
    out.append("/");
    push_decimal(&mut out, total);
    out.append(" processed — press Enter to skip");
    out
}

} // verus!
