//! Bytes of a child process read as text.

use vstd::prelude::*;
use vstd::utf8::{decode_utf8, valid_utf8};

verus! {

/// What `String::from_utf8_lossy` makes of bytes that are not UTF-8.
pub uninterp spec fn repaired_utf8(bytes: Seq<u8>) -> Seq<char>;

/// Bytes read as text: decoded where they are UTF-8, repaired where they are not.
pub open spec fn lossy_text(bytes: Seq<u8>) -> Seq<char> {
    if valid_utf8(bytes) {
        decode_utf8(bytes)
    } else {
        repaired_utf8(bytes)
    }
}

/// Calls `String::from_utf8_lossy` and takes the text that it gives as an owned string.
///
/// Claimed of it: bytes that are UTF-8 are decoded without change. On other bytes the
/// result, in which replacement characters stand for what is not UTF-8, depends on the
/// bytes alone; it is named and not spelled out.
#[verifier::external_body]
pub(crate) fn from_utf8_lossy(bytes: &[u8]) -> (text: String)
    ensures
        text@ == (if valid_utf8(bytes@) {
            decode_utf8(bytes@)
        } else {
            repaired_utf8(bytes@)
        }),
{
    String::from_utf8_lossy(bytes).to_string()
}

} // verus!
