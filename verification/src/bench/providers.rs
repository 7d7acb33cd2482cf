//! The benchmark's Python-backed providers and what they hand back.

use vstd::prelude::*;
use crate::bench::data::Document;
use crate::bench::settings::TopkRsSettings;
use crate::text::{decimal, push_decimal};

verus! {

/// A provider whose client runs in the embedded Python interpreter.
pub struct PythonProvider {}

/// TopK through its Python client.
pub struct TopkPyProvider {
    pub py: PythonProvider,
}

/// Turbopuffer through its Python client.
pub struct TpufPyProvider {
    pub py: PythonProvider,
}

/// TopK through its Rust client: the collection it works on and how the
/// client connects.
pub struct TopkRsProvider {
    pub settings: TopkRsSettings,
    pub collection: String,
}

/// The provider a benchmark runs against.
pub enum Provider {
    /// TopK
    TopkRs(TopkRsProvider),
    TopkPy(TopkPyProvider),
    TpufPy(TpufPyProvider),
}

/// The document a Python lookup by id found: none, or the only one; more
/// than one is an error naming how many came back.
pub fn expect_at_most_one(docs: Vec<Document>) -> (r: Result<Option<Document>, String>)
    ensures
        docs@.len() == 0 ==> r == Ok::<Option<Document>, String>(None),
        docs@.len() == 1 ==> r == Ok::<Option<Document>, String>(Some(docs@[0])),
        docs@.len() > 1 ==> (r matches Err(m) && m@ == "expected 1 document, got "@ + decimal(docs@.len())),
{
    let mut docs = docs;
    let n = docs.len();
    if n == 0 {
        Ok(None)
    } else if n == 1 {
        Ok(docs.pop())
    } else {
        let mut m = "expected 1 document, got ".to_owned();
        push_decimal(&mut m, n as u64);
        Err(m)
    }
}

} // verus!
