//! The digest function: the Keccak-256 hash of a byte sequence, computed by
//! the `tiny_keccak` crate, and the result verifier that recomputes a digest
//! before a match is reported.

use vstd::prelude::*;

use tiny_keccak::Hasher;

verus! {

/// The Keccak-256 digest of a byte sequence: 32 bytes, a function of the
/// input alone.
pub uninterp spec fn keccak256_of(input: Seq<u8>) -> Seq<u8>;

/// Relies on tiny_keccak's `Keccak::v256`, `update` and `finalize`: the
/// Keccak-256 digest of the input bytes, written into a 32-byte buffer, and
/// depending on nothing but the input.
#[verifier::external_body]
pub fn calculate_keccak_256(input: &[u8]) -> (r: [u8; 32])
    ensures
        r@ == keccak256_of(input@),
{
    let mut output = [0u8; 32];
    let mut hasher = tiny_keccak::Keccak::v256();
    hasher.update(input);
    hasher.finalize(&mut output);
    output
}

/// Two digests computed from the same bytes are the same 32-byte value.
pub proof fn lemma_digest_deterministic(input: Seq<u8>, d1: Seq<u8>, d2: Seq<u8>)
    requires
        d1 == keccak256_of(input),
        d2 == keccak256_of(input),
    ensures
        d1 == d2,
{
}

/// The result verifier: recomputes the digest of `buffer` and compares it
/// byte for byte with the digest that triggered a match. A mismatch means the
/// buffer no longer holds the bytes that were hashed, and the match must not
/// be reported.
pub fn verify_result(buffer: &[u8], hash: &[u8; 32]) -> (r: bool)
    ensures
        r == (keccak256_of(buffer@) == hash@),
{
    let recomputed = calculate_keccak_256(buffer);
    let mut i: usize = 0;
    while i < 32
        invariant
            0 <= i <= 32,
            recomputed@ == keccak256_of(buffer@),
            forall|j: int| 0 <= j < i ==> recomputed@[j] == hash@[j],
        decreases 32 - i,
    {
        if recomputed[i] != hash[i] {
            return false;
        }
        i = i + 1;
    }
    proof {
        assert(recomputed@ =~= hash@);
    }
    true
}

} // verus!
