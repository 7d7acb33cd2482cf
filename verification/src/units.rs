//! Human-readable byte sizes, as the `bytesize` crate prints them.

use vstd::prelude::*;
use crate::text::decimal;

verus! {

/// What `bytesize::ByteSize(bytes)` prints through `Display`: decimal (SI,
/// powers of 1000) units with one decimal place from a kilobyte up.
pub uninterp spec fn byte_size_text(bytes: u64) -> Seq<char>;

/// Prints `bytesize::ByteSize(bytes)` with `Display`. The contract names the
/// printed text and states the one case whose text the crate's source gives
/// directly: below 1000 bytes it is the number followed by " B". The
/// scaled forms (`"1.0 KB"` and up) go through floating point and are left
/// to the name.
#[verifier::external_body]
pub(crate) fn byte_size(bytes: u64) -> (r: String)
    ensures
        r@ == byte_size_text(bytes),
        bytes < 1000 ==> r@ == decimal(bytes as nat) + seq![' ', 'B'],
{
    format!("{}", bytesize::ByteSize(bytes))
}

} // verus!
