//! The text decoder: converts an entry's bytes into text, rejecting any
//! invalid byte sequence outright — no partial or lossy decoding.

use vstd::prelude::*;

use vstd::utf8::decode_utf8;
use vstd::utf8::valid_utf8;

verus! {

/// Relies on String::from_utf8: returns the decoded text exactly when the
/// bytes are a valid UTF-8 encoding and rejects them otherwise, with no
/// silent substitution.
#[verifier::external_body]
pub(crate) fn bytes_to_text(data: Vec<u8>) -> (r: Option<String>)
    ensures
        r is Some <==> valid_utf8(data@),
        r matches Some(s) ==> s@ == decode_utf8(data@),
{
    String::from_utf8(data).ok()
}

} // verus!
