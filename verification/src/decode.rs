//! Permissive decoding of raw child output bytes.
//!
//! Lines captured from the child's stdout and stderr arrive as raw byte
//! vectors. They are decoded to text lossily: invalid byte sequences are
//! replaced, never reported as an error, so decoding is total.

use vstd::prelude::*;

verus! {

/// The text that lossy UTF-8 decoding yields for the given bytes.
/// The result is a pure function of the bytes alone; it is named here
/// rather than spelled out, and every contract downstream speaks of
/// this name.
pub uninterp spec fn lossy_of(bytes: Seq<u8>) -> Seq<char>;

/// Relies on String::from_utf8_lossy: total over arbitrary bytes
/// (invalid sequences become replacement characters, never an error),
/// a pure function of the bytes, and empty input decodes to the empty
/// string.
#[verifier::external_body]
pub(crate) fn decode_lossy(bytes: &Vec<u8>) -> (r: String)
    ensures
        r@ == lossy_of(bytes@),
        bytes@.len() == 0 ==> r@.len() == 0,
{
    String::from_utf8_lossy(bytes).to_string()
}

} // verus!
