//! Construction of the canonical signing payload: the transaction hash,
//! followed by a length-prefixed serialization of the witness whose
//! signature-carrying field has been replaced by an all-zero placeholder,
//! hashed with a fixed 32-byte cryptographic digest function.

use vstd::prelude::*;

use crate::error::Error;

verus! {

/// The serialized size of a recoverable signature: a 64-byte signature plus
/// a 1-byte recovery id.
pub const SIGNATURE_SIZE: usize = 65;

/// The digest that the fixed cryptographic hash function assigns to a byte
/// sequence. Its value is a function of the bytes alone; it is pinned down
/// only by the outside implementation.
pub uninterp spec fn blake2b_of(data: Seq<u8>) -> Seq<u8>;

/// Relies on blake2b_ref::Blake2bBuilder / Blake2b: a 32-byte blake2b
/// digest, personalized as the host chain's default hash, computed from the
/// input bytes alone.
#[verifier::external_body]
fn ckb_blake2b(data: &Vec<u8>) -> (r: Vec<u8>)
    ensures
        r@ == blake2b_of(data@),
        r@.len() == 32,
{
    let mut out = [0u8; 32];
    let mut hasher = blake2b_ref::Blake2bBuilder::new(32).personal(b"ckb-default-hash").build();
    hasher.update(data.as_slice());
    hasher.finalize(&mut out);
    out.to_vec()
}

/// The bytes that are hashed to form the signing digest: the transaction
/// hash, then the witness length as an unsigned 64-bit little-endian
/// prefix, then the witness bytes themselves.
pub open spec fn spec_signing_preimage(tx_hash: Seq<u8>, witness: Seq<u8>) -> Seq<u8> {
    tx_hash + vstd::bytes::spec_u64_to_le_bytes(witness.len() as u64) + witness
}

/// The final signing digest over a transaction hash and a zeroed witness.
pub open spec fn spec_signing_digest(tx_hash: Seq<u8>, witness: Seq<u8>) -> Seq<u8> {
    blake2b_of(spec_signing_preimage(tx_hash, witness))
}

/// The witness with the signature-carrying field replaced by an all-zero
/// placeholder of the signature's serialized size.
pub open spec fn spec_zeroed_signature(witness: Seq<u8>, sig_start: int) -> Seq<u8> {
    Seq::new(
        witness.len(),
        |i: int|
            if sig_start <= i < sig_start + SIGNATURE_SIZE {
                0u8
            } else {
                witness[i]
            },
    )
}

/// Append all of `src` to `dst`, in order.
fn append_bytes(dst: &mut Vec<u8>, src: &[u8])
    ensures
        final(dst)@ == old(dst)@ + src@,
{
    let ghost orig = dst@;
    let n = src.len();
    let mut i: usize = 0;
    while i < n
        invariant
            i <= n,
            n == src@.len(),
            dst@ == orig + src@.take(i as int),
        decreases n - i,
    {
        dst.push(src[i]);
        proof {
            assert(src@.take(i + 1) =~= src@.take(i as int) + seq![src@[i as int]]);
            assert(orig + src@.take(i + 1) =~= orig + src@.take(i as int) + seq![src@[i as int]]);
        }
        i = i + 1;
    }
    proof {
        assert(src@.take(n as int) =~= src@);
    }
}

/// Replace the signature field of a serialized witness, starting at
/// `sig_start`, with the all-zero placeholder. A field that does not lie
/// wholly inside the witness is a malformed fixed-width field.
pub fn with_zeroed_signature(witness: &Vec<u8>, sig_start: usize) -> (r: Result<Vec<u8>, Error>)
    ensures
        sig_start + SIGNATURE_SIZE <= witness@.len() ==> (r matches Ok(w) && w@
            == spec_zeroed_signature(witness@, sig_start as int)),
        sig_start + SIGNATURE_SIZE > witness@.len() ==> r == Err::<Vec<u8>, Error>(
            Error::Encoding,
        ),
{
    if witness.len() < SIGNATURE_SIZE || sig_start > witness.len() - SIGNATURE_SIZE {
        return Err(Error::Encoding);
    }
    let n = witness.len();
    let mut out: Vec<u8> = Vec::new();
    let mut i: usize = 0;
    while i < n
        invariant
            i <= n,
            n == witness@.len(),
            sig_start + SIGNATURE_SIZE <= n,
            out@.len() == i,
            forall|j: int|
                0 <= j < i ==> out@[j] == spec_zeroed_signature(witness@, sig_start as int)[j],
        decreases n - i,
    {
        if i >= sig_start && i < sig_start + SIGNATURE_SIZE {
            out.push(0u8);
        } else {
            out.push(witness[i]);
        }
        i = i + 1;
    }
    proof {
        assert(out@ =~= spec_zeroed_signature(witness@, sig_start as int));
    }
    Ok(out)
}

/// Build the signing digest: concatenate the transaction hash, the 8-byte
/// little-endian length of the zeroed witness, and the zeroed witness, and
/// hash the concatenation.
pub fn build_signing_payload(tx_hash: &Vec<u8>, zeroed_witness: &Vec<u8>) -> (digest: Vec<u8>)
    ensures
        digest@ == spec_signing_digest(tx_hash@, zeroed_witness@),
        digest@.len() == 32,
{
    let mut preimage: Vec<u8> = Vec::new();
    append_bytes(&mut preimage, tx_hash.as_slice());
    let len_bytes = vstd::bytes::u64_to_le_bytes(zeroed_witness.len() as u64);
    append_bytes(&mut preimage, len_bytes.as_slice());
    append_bytes(&mut preimage, zeroed_witness.as_slice());
    proof {
        assert(preimage@ =~= spec_signing_preimage(tx_hash@, zeroed_witness@));
    }
    ckb_blake2b(&preimage)
}

/// Signing-payload construction is deterministic: identical transaction
/// hashes and identical witness bytes yield the identical signing digest.
pub proof fn lemma_payload_deterministic(
    tx_a: Seq<u8>,
    wit_a: Seq<u8>,
    tx_b: Seq<u8>,
    wit_b: Seq<u8>,
)
    requires
        tx_a == tx_b,
        wit_a == wit_b,
    ensures
        spec_signing_digest(tx_a, wit_a) == spec_signing_digest(tx_b, wit_b),
{
}

} // verus!
