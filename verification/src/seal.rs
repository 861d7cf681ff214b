//! The SCALE layout of a seal: a `u64` nonce followed by the 32-byte work hash.
use parity_scale_codec::{Decode, Encode};
use vstd::prelude::*;

verus! {

/// The 8 bytes of `n`, least significant first, as `u64::to_le_bytes` gives them.
pub open spec fn u64_le_bytes(n: u64) -> Seq<u8> {
    seq![
        n as u8,
        (n >> 8u64) as u8,
        (n >> 16u64) as u8,
        (n >> 24u64) as u8,
        (n >> 32u64) as u8,
        (n >> 40u64) as u8,
        (n >> 48u64) as u8,
        (n >> 56u64) as u8,
    ]
}

/// Number of bytes that a seal occupies: the nonce and the work hash.
pub open spec fn seal_len() -> nat {
    40
}

/// Calls `<(u64, [u8; 32]) as parity_scale_codec::Decode>::decode` on `seal`.
/// SCALE reads the `u64` from the first 8 bytes, least significant first, and the array from
/// the next 32 bytes; it fails when fewer than 40 bytes are there and leaves any later byte unread.
#[verifier::external_body]
pub(crate) fn decode_seal(seal: &[u8]) -> (decoded: Option<(u64, [u8; 32])>)
    ensures
        decoded is Some <==> seal@.len() >= seal_len(),
        decoded matches Some((nonce, work)) ==> {
            &&& u64_le_bytes(nonce) == seal@.subrange(0, 8)
            &&& work@ == seal@.subrange(8, 40)
        },
{
    let mut input = seal;
    <(u64, [u8; 32])>::decode(&mut input).ok()
}

/// Calls `parity_scale_codec::Encode::encode` on the pair `(pre_hash, nonce)`.
/// SCALE writes the 32 bytes of the hash as they are, then the 8 bytes of the nonce, least
/// significant first.
#[verifier::external_body]
pub(crate) fn encode_pre_hash_nonce(pre_hash: &[u8; 32], nonce: u64) -> (encoded: Vec<u8>)
    ensures
        encoded@ == pre_hash@ + u64_le_bytes(nonce),
{
    (pre_hash, nonce).encode()
}

} // verus!
