//! `topk delete`: removing one document from a dataset.

use vstd::prelude::*;

verus! {

/// The handle of the deletion, or nothing when it was skipped.
pub struct DeleteResult {
    pub handle: Option<String>,
}

/// The arguments of `topk delete`.
pub struct DeleteArgs {
    /// Dataset name
    pub dataset: String,
    /// Document ID
    pub id: String,
    /// Skip confirmation prompt
    pub yes: bool,
}

impl DeleteResult {
    /// `Deleting document... (handle: <handle>)`, or `Delete skipped.`
    pub fn render(&self) -> (r: String)
        ensures
            r@ == match self.handle {
                Some(h) => "Deleting document... (handle: "@ + h@ + ")"@,
                None => "Delete skipped."@,
            },
    {
        match &self.handle {
            Some(h) => {
                let mut s = "Deleting document... (handle: ".to_owned();
                s.append(h.as_str());
                s.append(")");
                s
            },
            None => "Delete skipped.".to_owned(),
        }
    }
}

/// The question asked before deleting document `id`.
pub fn delete_prompt(id: &str) -> (r: String)
    ensures
        r@ == "Delete document '"@ + id@ + "'? "@,
{
    let mut s = "Delete document '".to_owned();
    s.append(id);
    s.append("'? ");
    s
}

} // verus!
