//! A minimal single-slot variant of the ledger: one caller-supplied 32-byte
//! hash is stored per memory slot, and a later proof attempt must match it
//! exactly or fail.

use vstd::prelude::*;
use crate::hashing::DIGEST_LEN;

verus! {

/// One stored 32-byte hash.
pub struct Memory {
    pub hash: Vec<u8>,
}

/// Why a proof attempt against a memory slot was refused.
#[derive(Clone, Copy, Debug, PartialEq, Eq, Structural)]
pub enum ZkError {
    /// The provided hash does not equal the stored one.
    InvalidProof,
}

impl ZkError {
    /// A human-readable description of the failure.
    pub fn message(&self) -> (r: String)
        ensures
            r@ == "The proof is invalid."@,
    {
        "The proof is invalid.".to_owned()
    }
}

/// Whether a byte string has the exact size of a digest.
pub open spec fn valid_hash(h: Seq<u8>) -> bool {
    h.len() == DIGEST_LEN
}

/// Stores `hash` in the slot, replacing whatever was there.
pub fn store_memory_hash(memory: &mut Memory, hash: Vec<u8>) -> (r: Result<(), ZkError>)
    requires
        valid_hash(hash@),
    ensures
        r == Ok::<(), ZkError>(()),
        final(memory).hash@ == hash@,
{
    memory.hash = hash;
    Ok(())
}

/// Succeeds exactly when `provided` equals the stored hash byte for byte.
pub fn verify_proof(memory: &Memory, provided: &[u8]) -> (r: Result<(), ZkError>)
    ensures
        r is Ok <==> memory.hash@ == provided@,
        r is Err ==> r == Err::<(), ZkError>(ZkError::InvalidProof),
{
    if crate::hashing::digests_equal(memory.hash.as_slice(), provided) {
        Ok(())
    } else {
        Err(ZkError::InvalidProof)
    }
}

} // verus!
