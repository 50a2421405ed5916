//! Text decoding shared by the handshake and the frame reader.
use vstd::prelude::*;
use vstd::utf8::*;

verus! {

/// `std::str::from_utf8`, which per its documentation succeeds exactly on
/// well-formed UTF-8 and then gives the text that the bytes encode.
#[verifier::external_body]
pub(crate) fn utf8_text(bytes: &[u8]) -> (res: Option<String>)
    ensures
        res is Some <==> valid_utf8(bytes@),
        res matches Some(s) ==> s@ == decode_utf8(bytes@),
{
    std::str::from_utf8(bytes).ok().map(|s| s.to_string())
}

} // verus!
