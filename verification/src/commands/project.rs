//! `topk project`: the project commands.

use vstd::prelude::*;

verus! {

/// What `topk project` does.
pub enum Command {
    /// List projects in the current organization
    List,
    /// Get a project by ID
    Get { project_id: String },
    /// Create a project
    Create { name: String },
    /// Delete a project by ID
    Delete { project_id: String, yes: bool },
}

} // verus!
