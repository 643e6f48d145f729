//! Binary framing of a ciphertext blob.
//!
//! A blob is the concatenation of three segments, in order: the
//! asymmetrically encrypted symmetric key (fixed length), the nonce
//! (fixed length), and the authenticated symmetric-cipher output
//! (variable length). A decoded blob shorter than the two fixed
//! segments together is malformed and is rejected before any
//! cryptographic work.

use vstd::prelude::*;

use crate::errors::JournalError;

verus! {

/// Strength of the asymmetric key: the RSA modulus length in bits.
pub const RSA_KEY_BITS: usize = 2048;

/// Length in bytes of the asymmetric segment: the size of the RSA
/// modulus used by the scheme (2048 bits).
pub const RSA_BLOCK_SIZE: usize = 256;

/// Length in bytes of the AES-256-GCM nonce.
pub const NONCE_SIZE: usize = 12;

/// Length in bytes of the one-time AES-256 key.
pub const AES_KEY_SIZE: usize = 32;

/// Length in bytes of the GCM authentication tag appended to the
/// symmetric-cipher output.
pub const TAG_SIZE: usize = 16;

/// The least length a decoded blob can have: both fixed segments,
/// with an empty symmetric-cipher segment.
pub const MIN_BLOB_SIZE: usize = 268;

/// The most plaintext bytes AES-GCM accepts in one message (2^36).
pub const AES_GCM_MAX_PLAINTEXT: u64 = 0x10_0000_0000;

/// The bytes of a blob made of the three segments in order.
pub open spec fn framed(enc_key: Seq<u8>, nonce: Seq<u8>, body: Seq<u8>) -> Seq<u8> {
    enc_key + nonce + body
}

/// Concatenates the three segments into one blob.
pub fn assemble_blob(enc_key: &Vec<u8>, nonce: &Vec<u8>, body: &Vec<u8>) -> (r: Vec<u8>)
    ensures
        r@ == framed(enc_key@, nonce@, body@),
{
    let mut out: Vec<u8> = Vec::new();
    push_all(&mut out, enc_key.as_slice());
    push_all(&mut out, nonce.as_slice());
    push_all(&mut out, body.as_slice());
    proof {
        assert(out@ =~= enc_key@ + nonce@ + body@);
    }
    out
}

/// Splits a decoded blob back into its three segments, rejecting any
/// blob too short to hold the two fixed segments.
pub fn split_blob(bytes: &[u8]) -> (r: Result<(Vec<u8>, Vec<u8>, Vec<u8>), JournalError>)
    ensures
        bytes@.len() < MIN_BLOB_SIZE ==> r == Err::<(Vec<u8>, Vec<u8>, Vec<u8>), JournalError>(
            JournalError::MalformedBlob,
        ),
        bytes@.len() >= MIN_BLOB_SIZE ==> (r matches Ok(segs)
            && segs.0@ == bytes@.subrange(0, RSA_BLOCK_SIZE as int)
            && segs.1@ == bytes@.subrange(RSA_BLOCK_SIZE as int, MIN_BLOB_SIZE as int)
            && segs.2@ == bytes@.subrange(MIN_BLOB_SIZE as int, bytes@.len() as int)),
{
    if bytes.len() < MIN_BLOB_SIZE {
        return Err(JournalError::MalformedBlob);
    }
    let enc_key = vstd::slice::slice_to_vec(vstd::slice::slice_subrange(bytes, 0, RSA_BLOCK_SIZE));
    let nonce = vstd::slice::slice_to_vec(
        vstd::slice::slice_subrange(bytes, RSA_BLOCK_SIZE, MIN_BLOB_SIZE),
    );
    let body = vstd::slice::slice_to_vec(
        vstd::slice::slice_subrange(bytes, MIN_BLOB_SIZE, bytes.len()),
    );
    Ok((enc_key, nonce, body))
}

/// Appends every byte of `src` to `dst`, in order.
fn push_all(dst: &mut Vec<u8>, src: &[u8])
    ensures
        final(dst)@ == old(dst)@ + src@,
{
    let mut i: usize = 0;
    while i < src.len()
        invariant
            0 <= i <= src@.len(),
            dst@ == old(dst)@ + src@.subrange(0, i as int),
        decreases src@.len() - i,
    {
        dst.push(src[i]);
        i = i + 1;
        proof {
            assert(old(dst)@ + src@.subrange(0, i as int) =~= (old(dst)@ + src@.subrange(
                0,
                i - 1,
            )).push(src@[i - 1]));
        }
    }
    proof {
        assert(src@.subrange(0, src@.len() as int) =~= src@);
    }
}

/// Splitting a freshly assembled blob with well-sized fixed segments
/// recovers exactly the three segments that went in.
pub proof fn lemma_framed_splits(enc_key: Seq<u8>, nonce: Seq<u8>, body: Seq<u8>)
    requires
        enc_key.len() == RSA_BLOCK_SIZE,
        nonce.len() == NONCE_SIZE,
    ensures
        framed(enc_key, nonce, body).len() == MIN_BLOB_SIZE + body.len(),
        framed(enc_key, nonce, body).subrange(0, RSA_BLOCK_SIZE as int) == enc_key,
        framed(enc_key, nonce, body).subrange(RSA_BLOCK_SIZE as int, MIN_BLOB_SIZE as int)
            == nonce,
        framed(enc_key, nonce, body).subrange(
            MIN_BLOB_SIZE as int,
            framed(enc_key, nonce, body).len() as int,
        ) == body,
{
    let b = framed(enc_key, nonce, body);
    assert(b.subrange(0, RSA_BLOCK_SIZE as int) =~= enc_key);
    assert(b.subrange(RSA_BLOCK_SIZE as int, MIN_BLOB_SIZE as int) =~= nonce);
    assert(b.subrange(MIN_BLOB_SIZE as int, b.len() as int) =~= body);
}

} // verus!
