//! The error taxonomy of the journal core.
//!
//! Every operation fails with exactly one of these kinds; none is ever
//! retried internally, since a cryptographic failure is never transient.

use vstd::prelude::*;

verus! {

/// Why a journal-core operation failed.
#[derive(Clone, Copy, Debug, PartialEq, Eq, Structural)]
pub enum JournalError {
    /// The random source or the asymmetric key-generation routine failed.
    KeyGeneration,
    /// The public key failed to parse, or an encryption primitive failed.
    Encryption,
    /// The blob text is not valid base64, or the decoded bytes are too
    /// short to hold the asymmetric segment and the nonce.
    MalformedBlob,
    /// The private key failed to parse, the asymmetric segment did not
    /// decrypt, or the authentication tag did not verify.
    Decryption,
    /// The decrypted bytes are not valid UTF-8 text.
    Encoding,
}

} // verus!
