//! Text codecs at the edges of the core: base64 for carrying a binary
//! blob inside a text file, and UTF-8 for turning decrypted bytes back
//! into entry text.

use vstd::prelude::*;

use crate::errors::JournalError;

verus! {

/// What base64 decoding (standard alphabet, padded) yields for a piece
/// of text: the decoded bytes, or nothing when the text is not
/// well-formed base64.
pub uninterp spec fn b64_decode_of(text: Seq<char>) -> Option<Seq<u8>>;

/// Relies on base64's `Engine::encode` with the STANDARD engine: the
/// output is padded base64 of the input, so decoding it with the same
/// engine returns the input, and its length is four characters for
/// every three input bytes, rounded up.
#[verifier::external_body]
pub(crate) fn b64_encode(bytes: &[u8]) -> (r: String)
    ensures
        b64_decode_of(r@) == Some(bytes@),
        r@.len() == 4 * ((bytes@.len() + 2) / 3),
{
    base64::Engine::encode(&base64::engine::general_purpose::STANDARD, bytes)
}

/// Relies on base64's `Engine::decode` with the STANDARD engine: the
/// outcome is a function of the text alone, and decoding fails exactly
/// when the text is not well-formed padded base64.
#[verifier::external_body]
pub(crate) fn b64_decode(text: &str) -> (r: Result<Vec<u8>, JournalError>)
    ensures
        match r {
            Ok(bytes) => b64_decode_of(text@) == Some(bytes@),
            Err(e) => b64_decode_of(text@) is None && e == JournalError::MalformedBlob,
        },
{
    match base64::Engine::decode(&base64::engine::general_purpose::STANDARD, text) {
        Ok(v) => Ok(v),
        Err(_) => Err(JournalError::MalformedBlob),
    }
}

/// Relies on `String::from_utf8`: it succeeds exactly on valid UTF-8,
/// returning the text those bytes encode.
#[verifier::external_body]
pub(crate) fn bytes_to_text(bytes: Vec<u8>) -> (r: Result<String, JournalError>)
    ensures
        match r {
            Ok(s) => vstd::utf8::valid_utf8(bytes@) && s@ == vstd::utf8::decode_utf8(bytes@),
            Err(e) => !vstd::utf8::valid_utf8(bytes@) && e == JournalError::Encoding,
        },
{
    match String::from_utf8(bytes) {
        Ok(s) => Ok(s),
        Err(_) => Err(JournalError::Encoding),
    }
}

} // verus!
