//! The hybrid cipher: an RSA-encrypted one-time AES key protects the
//! entry body, AES-256-GCM authenticates and encrypts it, and the
//! three segments travel as one base64 blob.
//!
//! Both operations are stateless request/response transformations:
//! encryption consumes fresh randomness and nothing else; decryption
//! is deterministic in its inputs and has no side effects.

use vstd::prelude::*;

use crate::aead_ops::{aes_generate_key, aes_generate_nonce, aes_open, aes_open_of, aes_seal,
    aes_seal_of};
use crate::blob::{assemble_blob, framed, lemma_framed_splits, split_blob, AES_GCM_MAX_PLAINTEXT,
    AES_KEY_SIZE, MIN_BLOB_SIZE, NONCE_SIZE, RSA_BLOCK_SIZE, TAG_SIZE};
use crate::codec::{b64_decode, b64_decode_of, b64_encode, bytes_to_text};
use crate::errors::JournalError;
use crate::rsa_ops::{keypair_matched, public_key_wf, rsa_block_of, rsa_decrypt, rsa_decrypt_of,
    rsa_encrypt};
use vstd::utf8::{decode_utf8, encode_utf8, valid_utf8};

verus! {

/// What decryption yields for a blob text and a private key: the model
/// every run of `hyb_decrypt` follows, step by step — base64 decoding,
/// the length gate, the fixed-offset split, asymmetric recovery of the
/// one-time key, authenticated opening of the body, and UTF-8 reading
/// of the result.
pub open spec fn decrypt_model(blob_text: Seq<char>, private_pem: Seq<char>) -> Result<
    Seq<char>,
    JournalError,
> {
    match b64_decode_of(blob_text) {
        Option::None => Err(JournalError::MalformedBlob),
        Option::Some(bytes) => if bytes.len() < MIN_BLOB_SIZE {
            Err(JournalError::MalformedBlob)
        } else {
            let enc_key = bytes.subrange(0, RSA_BLOCK_SIZE as int);
            let nonce = bytes.subrange(RSA_BLOCK_SIZE as int, MIN_BLOB_SIZE as int);
            let body = bytes.subrange(MIN_BLOB_SIZE as int, bytes.len() as int);
            match rsa_decrypt_of(private_pem, enc_key) {
                Option::None => Err(JournalError::Decryption),
                Option::Some(key) => if key.len() != AES_KEY_SIZE {
                    Err(JournalError::Decryption)
                } else {
                    match aes_open_of(key, nonce, body) {
                        Option::None => Err(JournalError::Decryption),
                        Option::Some(plain) => if valid_utf8(plain) {
                            Ok(decode_utf8(plain))
                        } else {
                            Err(JournalError::Encoding)
                        },
                    }
                },
            }
        },
    }
}

/// What a successful encryption produced, witnessed by the one-time
/// key, the nonce, and the encrypted-key segment it drew: the blob
/// text decodes to the three segments in order, the sealed body is the
/// plaintext's UTF-8 bytes plus the tag, the asymmetric segment
/// recovers the one-time key under any matching private key, and the
/// body opens back to those bytes.
pub open spec fn encryption_witness(
    blob_text: Seq<char>,
    plaintext: Seq<char>,
    public_pem: Seq<char>,
    key: Seq<u8>,
    nonce: Seq<u8>,
    enc_key: Seq<u8>,
) -> bool {
    &&& key.len() == AES_KEY_SIZE
    &&& nonce.len() == NONCE_SIZE
    &&& enc_key.len() == RSA_BLOCK_SIZE
    &&& aes_seal_of(key, nonce, encode_utf8(plaintext)).len() == encode_utf8(plaintext).len()
        + TAG_SIZE
    &&& forall|sk: Seq<char>|
        #[trigger] keypair_matched(sk, public_pem) ==> rsa_decrypt_of(sk, enc_key) == Some(key)
    &&& b64_decode_of(blob_text) == Some(
        framed(enc_key, nonce, aes_seal_of(key, nonce, encode_utf8(plaintext))),
    )
    &&& blob_text.len() == 4 * ((framed(
        enc_key,
        nonce,
        aes_seal_of(key, nonce, encode_utf8(plaintext)),
    ).len() + 2) / 3)
    &&& aes_open_of(key, nonce, aes_seal_of(key, nonce, encode_utf8(plaintext))) == Some(
        encode_utf8(plaintext),
    )
}

/// Whether a blob text is one that encrypting `plaintext` under
/// `public_pem` can produce, for some choice of one-time key, nonce
/// and encrypted-key segment.
pub open spec fn encrypted_blob_for(
    blob_text: Seq<char>,
    plaintext: Seq<char>,
    public_pem: Seq<char>,
) -> bool {
    exists|key: Seq<u8>, nonce: Seq<u8>, enc_key: Seq<u8>|
        encryption_witness(blob_text, plaintext, public_pem, key, nonce, enc_key)
}

/// Encrypts one entry body under a PEM public key: a fresh AES-256 key
/// and nonce, the body sealed with AES-256-GCM, the key sealed with
/// RSA PKCS#1 v1.5, the three segments framed and carried as base64
/// text. Success is owed for every well-formed key of the scheme's
/// block size and every plaintext under GCM's message limit.
pub fn hyb_encrypt(plaintext: &str, pub_key: &str) -> (r: Result<String, JournalError>)
    ensures
        match r {
            Ok(blob) => encrypted_blob_for(blob@, plaintext@, pub_key@),
            Err(e) => e == JournalError::Encryption,
        },
        !public_key_wf(pub_key@) ==> r is Err,
        public_key_wf(pub_key@) && rsa_block_of(pub_key@) == RSA_BLOCK_SIZE && encode_utf8(
            plaintext@,
        ).len() <= AES_GCM_MAX_PLAINTEXT ==> r is Ok,
{
    let aes_key = aes_generate_key();
    let nonce = aes_generate_nonce();
    let sealed = match aes_seal(&aes_key, &nonce, plaintext.as_bytes()) {
        Ok(c) => c,
        Err(e) => {
            return Err(e);
        },
    };
    let enc_key = match rsa_encrypt(pub_key, aes_key.as_slice()) {
        Ok(c) => c,
        Err(e) => {
            return Err(e);
        },
    };
    if enc_key.len() != RSA_BLOCK_SIZE {
        return Err(JournalError::Encryption);
    }
    let combined = assemble_blob(&enc_key, &nonce, &sealed);
    let blob = b64_encode(combined.as_slice());
    proof {
        assert(encryption_witness(blob@, plaintext@, pub_key@, aes_key@, nonce@, enc_key@));
    }
    Ok(blob)
}

/// Decrypts one blob text under a PEM private key, recovering the
/// entry body or reporting exactly where the blob fails: malformed
/// base64 or an undersized blob, a key or tag that does not verify, or
/// decrypted bytes that are not text.
pub fn hyb_decrypt(ciphertext_b64: &str, priv_key: &str) -> (r: Result<String, JournalError>)
    ensures
        match r {
            Ok(plain) => decrypt_model(ciphertext_b64@, priv_key@) == Ok::<
                Seq<char>,
                JournalError,
            >(plain@),
            Err(e) => decrypt_model(ciphertext_b64@, priv_key@) == Err::<
                Seq<char>,
                JournalError,
            >(e),
        },
{
    let bytes = match b64_decode(ciphertext_b64) {
        Ok(b) => b,
        Err(e) => {
            return Err(e);
        },
    };
    let segments = match split_blob(bytes.as_slice()) {
        Ok(t) => t,
        Err(e) => {
            return Err(e);
        },
    };
    let (enc_key, nonce, body) = segments;
    let aes_key = match rsa_decrypt(priv_key, enc_key.as_slice()) {
        Ok(k) => k,
        Err(e) => {
            return Err(e);
        },
    };
    if aes_key.len() != AES_KEY_SIZE {
        return Err(JournalError::Decryption);
    }
    let plain_bytes = match aes_open(&aes_key, &nonce, body.as_slice()) {
        Ok(p) => p,
        Err(e) => {
            return Err(e);
        },
    };
    bytes_to_text(plain_bytes)
}

/// Round trip: any blob a successful encryption produced decrypts,
/// under any private key matching the public key it was made for, to
/// exactly the plaintext that was encrypted.
pub proof fn lemma_round_trip(
    blob_text: Seq<char>,
    plaintext: Seq<char>,
    public_pem: Seq<char>,
    private_pem: Seq<char>,
)
    requires
        encrypted_blob_for(blob_text, plaintext, public_pem),
        keypair_matched(private_pem, public_pem),
    ensures
        decrypt_model(blob_text, private_pem) == Ok::<Seq<char>, JournalError>(plaintext),
{
    broadcast use vstd::utf8::encode_utf8_valid_utf8, vstd::utf8::encode_utf8_decode_utf8;

    let (key, nonce, enc_key) = choose|key: Seq<u8>, nonce: Seq<u8>, enc_key: Seq<u8>|
        encryption_witness(blob_text, plaintext, public_pem, key, nonce, enc_key);
    let body = aes_seal_of(key, nonce, encode_utf8(plaintext));
    lemma_framed_splits(enc_key, nonce, body);
}

/// The documented blob layout in numbers: the decoded bytes of any
/// blob a successful encryption produced hold the asymmetric block and
/// the nonce followed by the sealed body — the plaintext's UTF-8 bytes
/// plus the tag — and the base64 text itself is never empty.
pub proof fn lemma_blob_length(blob_text: Seq<char>, plaintext: Seq<char>, public_pem: Seq<char>)
    requires
        encrypted_blob_for(blob_text, plaintext, public_pem),
    ensures
        b64_decode_of(blob_text) matches Some(bytes) && bytes.len() == MIN_BLOB_SIZE + encode_utf8(
            plaintext,
        ).len() + TAG_SIZE,
        blob_text.len() > 0,
{
    let (key, nonce, enc_key) = choose|key: Seq<u8>, nonce: Seq<u8>, enc_key: Seq<u8>|
        encryption_witness(blob_text, plaintext, public_pem, key, nonce, enc_key);
    let body = aes_seal_of(key, nonce, encode_utf8(plaintext));
    assert(framed(enc_key, nonce, body).len() == MIN_BLOB_SIZE + body.len());
    assert((framed(enc_key, nonce, body).len() + 2) / 3 >= 1);
}

/// Length validation: a blob whose decoded bytes are shorter than the
/// asymmetric segment and the nonce together is rejected as malformed,
/// before any cryptographic step.
pub proof fn lemma_short_blob_rejected(blob_text: Seq<char>, private_pem: Seq<char>)
    requires
        b64_decode_of(blob_text) matches Some(bytes) && bytes.len() < MIN_BLOB_SIZE,
    ensures
        decrypt_model(blob_text, private_pem) == Err::<Seq<char>, JournalError>(
            JournalError::MalformedBlob,
        ),
{
}

} // verus!
