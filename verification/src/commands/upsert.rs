//! `topk upsert`: what uploading one file reports.

use vstd::prelude::*;

verus! {

/// The handle of an upsert, whether the file was processed, and its metadata.
pub struct UpsertResult {
    pub handle: String,
    pub processed: bool,
    /// Metadata fields, each value as JSON text.
    pub metadata: Vec<(String, String)>,
}

impl UpsertResult {
    /// The result of a dry run: nothing uploaded, the metadata kept.
    pub fn dry_run(metadata: Vec<(String, String)>) -> (r: UpsertResult)
        ensures
            r.handle@ == "dry-run"@,
            !r.processed,
            r.metadata@ == metadata@,
    {
        UpsertResult { handle: "dry-run".to_owned(), processed: false, metadata }
    }

    /// `Uploaded and processed.` or `Uploaded.`
    pub fn render(&self) -> (r: String)
        ensures
            r@ == (if self.processed { "Uploaded and processed."@ } else { "Uploaded."@ }),
    {
        if self.processed {
            "Uploaded and processed.".to_owned()
        } else {
            "Uploaded.".to_owned()
        }
    }
}

} // verus!
