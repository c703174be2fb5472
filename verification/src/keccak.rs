//! Keccak-256, the hash under every digest of this crate.

use vstd::prelude::*;

verus! {

/// The Keccak-256 hash of `data`, as `alloy_primitives::keccak256` computes it.
pub uninterp spec fn keccak256(data: Seq<u8>) -> [u8; 32];

/// Calls `alloy_primitives::keccak256`.
///
/// Trusted: the 32 bytes that come back are the Keccak-256 hash of `data`,
/// which is what `keccak256` names. Nothing else is claimed of them.
#[verifier::external_body]
pub(crate) fn keccak256_of(data: &[u8]) -> (hash: [u8; 32])
    ensures
        hash == keccak256(data@),
{
    alloy_primitives::keccak256(data).0
}

/// Two different byte strings with the same Keccak-256 hash.
pub open spec fn collides(a: Seq<u8>, b: Seq<u8>) -> bool {
    a != b && keccak256(a) == keccak256(b)
}

/// Hashes the bytes of a vector.
pub fn hash_bytes(data: &Vec<u8>) -> (hash: [u8; 32])
    ensures
        hash == keccak256(data@),
{
    keccak256_of(data.as_slice())
}

} // verus!
