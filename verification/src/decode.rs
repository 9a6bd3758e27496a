//! Turning a response body into text, done by the `encoding_rs` crate. Verus
//! takes the contracts in this file on trust.

use vstd::prelude::*;

verus! {

/// The longest body that is handed to the decoder. The decoder sizes its
/// output buffer at a small multiple of the input's length and gives up where
/// that size does not fit the machine's integers.
pub const MAX_BODY_LEN: usize = usize::MAX / 16;

/// The text that `Encoding::decode_without_bom_handling` of
/// `encoding_rs::WINDOWS_1252` gives for a body: the windows-1252 reading of
/// the bytes, whatever they begin with.
pub uninterp spec fn decoded_text(bytes: Seq<u8>) -> Seq<char>;

/// Calls `Encoding::decode_without_bom_handling` on
/// `encoding_rs::WINDOWS_1252` and keeps the text, not the error flag.
/// Claimed: the text is determined by the bytes alone, and is what
/// [`decoded_text`] names.
#[verifier::external_body]
pub(crate) fn decode_windows_1252(bytes: &[u8]) -> (text: String)
    requires
        bytes@.len() <= MAX_BODY_LEN,
    ensures
        text@ == decoded_text(bytes@),
{
    encoding_rs::WINDOWS_1252.decode_without_bom_handling(bytes).0.into_owned()
}

} // verus!
