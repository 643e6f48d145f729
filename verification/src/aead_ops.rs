//! The symmetric half of the hybrid scheme: AES-256-GCM, an
//! authenticated cipher. Each encryption uses a fresh one-time key and
//! a fresh nonce, so a nonce is never reused under any key.

use vstd::prelude::*;

use crate::blob::{AES_GCM_MAX_PLAINTEXT, AES_KEY_SIZE, NONCE_SIZE, TAG_SIZE};
use crate::errors::JournalError;

verus! {

/// What AES-256-GCM encryption yields: the ciphertext with the
/// authentication tag appended, a function of key, nonce and plaintext
/// alone.
pub uninterp spec fn aes_seal_of(key: Seq<u8>, nonce: Seq<u8>, plaintext: Seq<u8>) -> Seq<u8>;

/// What AES-256-GCM decryption yields: the plaintext when the
/// authentication tag verifies, nothing otherwise; a function of key,
/// nonce and ciphertext alone.
pub uninterp spec fn aes_open_of(key: Seq<u8>, nonce: Seq<u8>, ciphertext: Seq<u8>) -> Option<
    Seq<u8>,
>;

/// Relies on `Aes256Gcm::generate_key` with the operating system's
/// secure random source: a 32-byte key.
#[verifier::external_body]
pub(crate) fn aes_generate_key() -> (r: Vec<u8>)
    ensures
        r@.len() == AES_KEY_SIZE,
{
    let key = <aes_gcm::Aes256Gcm as aes_gcm::KeyInit>::generate_key(&mut aes_gcm::aead::OsRng);
    key.to_vec()
}

/// Relies on `Aes256Gcm::generate_nonce` with the operating system's
/// secure random source: a 12-byte nonce.
#[verifier::external_body]
pub(crate) fn aes_generate_nonce() -> (r: Vec<u8>)
    ensures
        r@.len() == NONCE_SIZE,
{
    <aes_gcm::Aes256Gcm as aes_gcm::AeadCore>::generate_nonce(&mut aes_gcm::aead::OsRng).to_vec()
}

/// Relies on aes_gcm's `Aead::encrypt` for `Aes256Gcm`: the output is
/// the ciphertext with the 16-byte tag appended, a function of key,
/// nonce and plaintext alone, and `Aead::decrypt` recovers the
/// plaintext from it under the same key and nonce. Encryption fails
/// only on a plaintext above GCM's message limit.
#[verifier::external_body]
pub(crate) fn aes_seal(key: &Vec<u8>, nonce: &Vec<u8>, plaintext: &[u8]) -> (r: Result<
    Vec<u8>,
    JournalError,
>)
    requires
        key@.len() == AES_KEY_SIZE,
        nonce@.len() == NONCE_SIZE,
    ensures
        match r {
            Ok(sealed) => sealed@ == aes_seal_of(key@, nonce@, plaintext@) && sealed@.len()
                == plaintext@.len() + TAG_SIZE && aes_open_of(key@, nonce@, sealed@) == Some(
                plaintext@,
            ),
            Err(e) => e == JournalError::Encryption,
        },
        plaintext@.len() <= AES_GCM_MAX_PLAINTEXT ==> r is Ok,
{
    let cipher: aes_gcm::Aes256Gcm = aes_gcm::KeyInit::new(aes_gcm::Key::<
        aes_gcm::Aes256Gcm,
    >::from_slice(key.as_slice()));
    match aes_gcm::aead::Aead::encrypt(
        &cipher,
        aes_gcm::Nonce::from_slice(nonce.as_slice()),
        plaintext,
    ) {
        Ok(v) => Ok(v),
        Err(_) => Err(JournalError::Encryption),
    }
}

/// Relies on aes_gcm's `Aead::decrypt` for `Aes256Gcm`: the outcome is
/// a function of key, nonce and ciphertext alone, and it fails exactly
/// when the authentication tag does not verify.
#[verifier::external_body]
pub(crate) fn aes_open(key: &Vec<u8>, nonce: &Vec<u8>, ciphertext: &[u8]) -> (r: Result<
    Vec<u8>,
    JournalError,
>)
    requires
        key@.len() == AES_KEY_SIZE,
        nonce@.len() == NONCE_SIZE,
    ensures
        match r {
            Ok(opened) => aes_open_of(key@, nonce@, ciphertext@) == Some(opened@),
            Err(e) => aes_open_of(key@, nonce@, ciphertext@) is None && e
                == JournalError::Decryption,
        },
{
    let cipher: aes_gcm::Aes256Gcm = aes_gcm::KeyInit::new(aes_gcm::Key::<
        aes_gcm::Aes256Gcm,
    >::from_slice(key.as_slice()));
    match aes_gcm::aead::Aead::decrypt(
        &cipher,
        aes_gcm::Nonce::from_slice(nonce.as_slice()),
        ciphertext,
    ) {
        Ok(v) => Ok(v),
        Err(_) => Err(JournalError::Decryption),
    }
}

} // verus!
