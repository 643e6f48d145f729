//! The asymmetric half of the hybrid scheme: a 2048-bit RSA keypair in
//! PEM text, and PKCS#1 v1.5 encryption of the one-time symmetric key.
//! The padding defends the raw primitive; unpadded RSA is never used.

use vstd::prelude::*;

use crate::blob::{RSA_BLOCK_SIZE, RSA_KEY_BITS};
use crate::errors::JournalError;

verus! {

/// Whether a piece of text parses as an SPKI PEM public key.
pub uninterp spec fn public_key_wf(public_pem: Seq<char>) -> bool;

/// The block size of the key a public PEM text parses to: the byte
/// length of its modulus, which is also the exact length of every
/// ciphertext made under it. A function of the text alone.
pub uninterp spec fn rsa_block_of(public_pem: Seq<char>) -> nat;

/// Whether two PEM texts carry the two halves of one RSA keypair: the
/// private key parses from PKCS#8, the public key parses from SPKI,
/// and the public key is the one derived from the private key.
pub uninterp spec fn keypair_matched(private_pem: Seq<char>, public_pem: Seq<char>) -> bool;

/// What RSA PKCS#1 v1.5 decryption under a PEM private key yields for
/// a ciphertext block: the recovered message, or nothing when the key
/// does not parse or the padding does not verify. A function of the
/// key text and the block alone.
pub uninterp spec fn rsa_decrypt_of(private_pem: Seq<char>, ciphertext: Seq<u8>) -> Option<
    Seq<u8>,
>;

/// Generates a fresh 2048-bit RSA keypair and returns it as two PEM
/// texts: the private key in PKCS#8 form, then the public key in SPKI
/// form.
///
/// Relies on rsa's `RsaPrivateKey::new` with the operating system's
/// secure random source, `RsaPublicKey::from`, and the encoders
/// `to_pkcs8_pem` and `to_public_key_pem`: the two texts serialize the
/// two halves of one freshly generated keypair whose modulus is 2048
/// bits, so its block is 256 bytes.
#[verifier::external_body]
pub fn rsa_gen_keypair() -> (r: Result<(String, String), JournalError>)
    ensures
        match r {
            Ok(keys) => keypair_matched(keys.0@, keys.1@) && public_key_wf(keys.1@)
                && rsa_block_of(keys.1@) == RSA_BLOCK_SIZE,
            Err(e) => e == JournalError::KeyGeneration,
        },
{
    let mut rng = aes_gcm::aead::OsRng;
    let private_key = rsa::RsaPrivateKey::new(&mut rng, RSA_KEY_BITS).map_err(
        |_| JournalError::KeyGeneration,
    )?;
    let public_key = rsa::RsaPublicKey::from(&private_key);
    let private_pem = rsa::pkcs8::EncodePrivateKey::to_pkcs8_pem(
        &private_key,
        Default::default(),
    ).map_err(|_| JournalError::KeyGeneration)?;
    let public_pem = rsa::pkcs8::EncodePublicKey::to_public_key_pem(
        &public_key,
        Default::default(),
    ).map_err(|_| JournalError::KeyGeneration)?;
    Ok((private_pem.to_string(), public_pem))
}

/// Encrypts a short message under a PEM public key with RSA
/// PKCS#1 v1.5.
///
/// Relies on rsa's `from_public_key_pem` and `RsaPublicKey::encrypt`
/// with `Pkcs1v15Encrypt` padding: parsing succeeds exactly on
/// well-formed SPKI PEM text; encryption under a parsed key fails only
/// when the message plus the 11 padding bytes exceeds the key's block,
/// and its output is exactly one block; decryption of the output under
/// any matching private key recovers the message.
#[verifier::external_body]
pub(crate) fn rsa_encrypt(public_pem: &str, msg: &[u8]) -> (r: Result<Vec<u8>, JournalError>)
    ensures
        match r {
            Ok(enc) => public_key_wf(public_pem@) && enc@.len() == rsa_block_of(public_pem@) && (
            forall|sk: Seq<char>|
                #[trigger] keypair_matched(sk, public_pem@) ==> rsa_decrypt_of(sk, enc@) == Some(
                    msg@,
                )),
            Err(e) => e == JournalError::Encryption,
        },
        !public_key_wf(public_pem@) ==> r is Err,
        public_key_wf(public_pem@) && msg@.len() + 11 <= rsa_block_of(public_pem@) ==> r is Ok,
{
    let key = rsa::pkcs8::DecodePublicKey::from_public_key_pem(public_pem).map_err(
        |_| JournalError::Encryption,
    )?;
    let enc: rsa::RsaPublicKey = key;
    enc.encrypt(&mut aes_gcm::aead::OsRng, rsa::Pkcs1v15Encrypt, msg).map_err(
        |_| JournalError::Encryption,
    )
}

/// Decrypts an asymmetric segment under a PEM private key with RSA
/// PKCS#1 v1.5.
///
/// Relies on rsa's `from_pkcs8_pem` and `RsaPrivateKey::decrypt` with
/// `Pkcs1v15Encrypt` padding: the outcome is a function of the key
/// text and the block alone, failing when the key does not parse or
/// the padding does not verify.
#[verifier::external_body]
pub(crate) fn rsa_decrypt(private_pem: &str, ciphertext: &[u8]) -> (r: Result<
    Vec<u8>,
    JournalError,
>)
    ensures
        match r {
            Ok(m) => rsa_decrypt_of(private_pem@, ciphertext@) == Some(m@),
            Err(e) => rsa_decrypt_of(private_pem@, ciphertext@) is None && e
                == JournalError::Decryption,
        },
{
    let key: rsa::RsaPrivateKey = rsa::pkcs8::DecodePrivateKey::from_pkcs8_pem(
        private_pem,
    ).map_err(|_| JournalError::Decryption)?;
    match key.decrypt(rsa::Pkcs1v15Encrypt, ciphertext) {
        Ok(m) => Ok(m),
        Err(_) => Err(JournalError::Decryption),
    }
}

} // verus!
