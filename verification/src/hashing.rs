//! The hash engine: a fixed-size cryptographic digest of a byte string, and
//! the byte-wise comparison of two digests.

use vstd::prelude::*;
use sha2::Digest;

verus! {

/// The number of bytes in a digest.
pub const DIGEST_LEN: usize = 32;

/// The digest of a byte string. It depends on the bytes alone: the same
/// payload always yields the same digest.
pub uninterp spec fn digest_of(data: Seq<u8>) -> Seq<u8>;

/// Relies on `sha2::Sha256::digest` (through the `Digest` trait): one-shot
/// SHA-256, whose 32-byte result is a function of the input bytes alone.
#[verifier::external_body]
pub fn compute_digest(data: &[u8]) -> (r: Vec<u8>)
    ensures
        r@ == digest_of(data@),
        r@.len() == DIGEST_LEN,
{
    sha2::Sha256::digest(data).to_vec()
}

/// Byte-wise equality of two byte strings, as the engine compares digests.
/// No failure modes; inputs of unequal length simply differ.
pub fn digests_equal(a: &[u8], b: &[u8]) -> (r: bool)
    ensures
        r == (a@ == b@),
{
    if a.len() != b.len() {
        proof {
            assert(a@ != b@);
        }
        return false;
    }
    let n = a.len();
    let mut i: usize = 0;
    while i < n
        invariant
            n == a@.len(),
            n == b@.len(),
            i <= n,
            forall|j: int| 0 <= j < i ==> a@[j] == b@[j],
        decreases n - i,
    {
        if a[i] != b[i] {
            return false;
        }
        i += 1;
    }
    proof {
        assert(a@ =~= b@);
    }
    true
}

} // verus!
