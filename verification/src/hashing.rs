//! The Blake2 hash that binds a seal to the block it seals.
use vstd::prelude::*;

verus! {

/// The 256-bit Blake2b digest of `data`, as computed by `sp_core::blake2_256`.
pub uninterp spec fn blake2_256_of(data: Seq<u8>) -> Seq<u8>;

/// Calls `sp_core::blake2_256`, which hashes `data` with Blake2b to a 32-byte digest.
/// The contract only names the digest: it is the same for the same bytes.
#[verifier::external_body]
#[allow(deprecated)]
pub(crate) fn blake2_256(data: &[u8]) -> (digest: [u8; 32])
    ensures
        digest@ == blake2_256_of(data@),
{
    sp_core::blake2_256(data)
}

} // verus!
