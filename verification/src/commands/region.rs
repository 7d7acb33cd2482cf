//! `topk region`: the region commands.

use vstd::prelude::*;

verus! {

/// What `topk region` does.
#[derive(PartialEq, Eq, Structural, Clone, Copy, Debug)]
pub enum Command {
    /// List available regions
    List,
}

} // verus!
