//! Sorting the per-file upload attempts into handles and failures.

use vstd::prelude::*;
use super::result::UploadError;

verus! {

/// One file's upload attempt: the handle the service gave back, or the error text.
pub struct FileUpload {
    pub doc_id: String,
    pub path: String,
    pub result: Result<String, String>,
}

/// The handles of the files that uploaded, and the failures, each in attempt order.
pub struct UploadingOutput {
    pub handles: Vec<String>,
    pub errors: Vec<UploadError>,
}

/// The handles of the successful attempts, in order.
pub open spec fn handles_of(s: Seq<FileUpload>) -> Seq<Seq<char>>
    decreases s.len(),
{
    if s.len() == 0 {
        Seq::empty()
    } else {
        let rest = handles_of(s.drop_last());
        match s.last().result {
            Ok(h) => rest.push(h@),
            Err(_) => rest,
        }
    }
}

/// The failure record of an attempt.
pub open spec fn failure_of(f: FileUpload, error: String) -> UploadError {
    UploadError { doc_id: f.doc_id, path: Some(f.path), error }
}

/// The failures, in order.
pub open spec fn errors_of(s: Seq<FileUpload>) -> Seq<UploadError>
    decreases s.len(),
{
    if s.len() == 0 {
        Seq::empty()
    } else {
        let rest = errors_of(s.drop_last());
        match s.last().result {
            Ok(_) => rest,
            Err(e) => rest.push(failure_of(s.last(), e)),
        }
    }
}

/// Splits the attempts into handles (for the waiting phase) and structured errors.
pub fn split_uploads(outcomes: Vec<FileUpload>) -> (r: UploadingOutput)
    ensures
        r.handles@.map_values(|h: String| h@) == handles_of(outcomes@),
        r.errors@ == errors_of(outcomes@),
        r.handles@.len() + r.errors@.len() == outcomes@.len(),
{
    let mut handles: Vec<String> = Vec::new();
    let mut errors: Vec<UploadError> = Vec::new();
    let n = outcomes.len();
    let mut i: usize = 0;
    while i < n
        invariant
            n == outcomes@.len(),
            i <= n,
            handles@.map_values(|h: String| h@) == handles_of(outcomes@.take(i as int)),
            errors@ == errors_of(outcomes@.take(i as int)),
            handles@.len() + errors@.len() == i,
        decreases n - i,
    {
        let ghost t = outcomes@.take(i + 1);
        assert(t.drop_last() =~= outcomes@.take(i as int));
        let ghost before = handles@;
        let f = &outcomes[i];
        match &f.result {
            Ok(handle) => {
                handles.push(handle.clone());
                assert(handles@.map_values(|h: String| h@) =~= before.map_values(|h: String| h@).push(handle@));
            },
            Err(e) => {
                errors.push(UploadError { doc_id: f.doc_id.clone(), path: Some(f.path.clone()), error: e.clone() });
            },
        }
        i = i + 1;
    }
    assert(outcomes@.take(n as int) =~= outcomes@);
    UploadingOutput { handles, errors }
}

} // verus!
