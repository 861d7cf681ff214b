//! A proof-of-work algorithm: a seal is the nonce and the Blake2 hash of the pre-hash and the
//! nonce, and that hash, read as a number, may not exceed the difficulty.
use vstd::prelude::*;

use crate::bytes::{le_u128_prefix, le_value, lemma_le_value_zero};
use crate::hashing::{blake2_256, blake2_256_of};
use crate::seal::{decode_seal, encode_pre_hash_nonce, seal_len};

verus! {

/// The difficulty that this algorithm asks of every block.
pub open spec fn fixed_difficulty() -> u128 {
    1
}

/// The work that a seal's nonce does on `pre_hash`: the Blake2 hash of the pre-hash followed by
/// the nonce's 8 bytes as the seal carries them.
pub open spec fn seal_work(pre_hash: Seq<u8>, seal: Seq<u8>) -> Seq<u8> {
    blake2_256_of(pre_hash + seal.subrange(0, 8))
}

/// A computed work hash matches the claimed one, and its first 16 bytes, read little-endian,
/// do not exceed the difficulty.
pub open spec fn work_meets(computed: Seq<u8>, claimed: Seq<u8>, difficulty: u128) -> bool {
    &&& computed == claimed
    &&& le_value(computed.subrange(0, 16)) <= difficulty
}

/// When a seal is accepted for `pre_hash` at `difficulty`.
pub open spec fn seal_accepted(pre_hash: Seq<u8>, seal: Seq<u8>, difficulty: u128) -> bool {
    &&& seal.len() >= seal_len()
    &&& work_meets(seal_work(pre_hash, seal), seal.subrange(8, 40), difficulty)
}

/// Compares a computed work hash with the claimed one and checks it against the difficulty.
pub fn check_work(computed: &[u8; 32], claimed: &[u8; 32], difficulty: u128) -> (ok: bool)
    ensures
        ok == work_meets(computed@, claimed@, difficulty),
        ok ==> computed@ == claimed@,
        ok <==> (computed@ == claimed@ && le_value(computed@.subrange(0, 16)) <= difficulty),
{
    let mut i: usize = 0;
    while i < 32
        invariant
            i <= 32,
            computed@.len() == 32,
            claimed@.len() == 32,
            forall|j: int| 0 <= j < i ==> computed@[j] == claimed@[j],
        decreases 32 - i,
    {
        if computed[i] != claimed[i] {
            return false;
        }
        i = i + 1;
    }
    assert(computed@ =~= claimed@);
    let hash_num = le_u128_prefix(computed);
    hash_num <= difficulty
}

/// A proof-of-work algorithm whose seal carries a nonce and the claimed work hash.
#[derive(Clone)]
pub struct PowAlgorithmImpl;

impl PowAlgorithmImpl {
    /// The difficulty for the block after the given parent: always 1.
    pub fn difficulty(&self, _parent: &[u8; 32]) -> (d: u128)
        ensures
            d == fixed_difficulty(),
    {
        1
    }

    /// Checks `seal` for the block with `pre_hash` at `difficulty`: the seal decodes to a nonce
    /// and a work hash, the work hash is the Blake2 hash of the pre-hash and the nonce, and its
    /// first 16 bytes, read little-endian, do not exceed the difficulty. The pre-digest plays no
    /// part.
    pub fn verify(
        &self,
        pre_hash: &[u8; 32],
        _pre_digest: Option<&[u8]>,
        seal: &[u8],
        difficulty: u128,
    ) -> (ok: bool)
        ensures
            ok == seal_accepted(pre_hash@, seal@, difficulty),
            ok ==> seal@.len() >= 40,
            ok ==> blake2_256_of(pre_hash@ + seal@.subrange(0, 8)) == seal@.subrange(8, 40),
            ok ==> le_value(seal@.subrange(8, 24)) <= difficulty,
            seal@.len() >= 40 && blake2_256_of(pre_hash@ + seal@.subrange(0, 8)) == seal@.subrange(
                8,
                40,
            ) && le_value(seal@.subrange(8, 24)) <= difficulty ==> ok,
    {
        let (nonce, result_hash) = match decode_seal(seal) {
            Some(decoded) => decoded,
            None => return false,
        };
        let input = encode_pre_hash_nonce(pre_hash, nonce);
        let computed = blake2_256(input.as_slice());
        proof {
            assert(input@ =~= pre_hash@ + seal@.subrange(0, 8));
        }
        let ok = check_work(&computed, &result_hash, difficulty);
        proof {
            lemma_seal_acceptance(pre_hash@, seal@, difficulty);
        }
        ok
    }
}

/// Raising the difficulty never turns an accepted seal into a rejected one.
pub proof fn lemma_accepted_at_higher_difficulty(
    pre_hash: Seq<u8>,
    seal: Seq<u8>,
    low: u128,
    high: u128,
)
    requires
        low <= high,
        seal_accepted(pre_hash, seal, low),
    ensures
        seal_accepted(pre_hash, seal, high),
{
}

/// Only the first 40 bytes of a seal count: bytes after them change nothing.
pub proof fn lemma_trailing_bytes_ignored(
    pre_hash: Seq<u8>,
    seal: Seq<u8>,
    extra: Seq<u8>,
    difficulty: u128,
)
    requires
        seal.len() >= seal_len(),
    ensures
        seal_accepted(pre_hash, seal + extra, difficulty) == seal_accepted(
            pre_hash,
            seal,
            difficulty,
        ),
{
    let longer = seal + extra;
    assert(longer.subrange(0, 8) =~= seal.subrange(0, 8));
    assert(longer.subrange(8, 40) =~= seal.subrange(8, 40));
}

/// At the algorithm's own difficulty a seal is accepted exactly when its claimed work hash is
/// the Blake2 hash of the pre-hash and nonce, its first byte is at most 1, and its next 15
/// bytes are zero.
pub proof fn lemma_fixed_difficulty_acceptance(pre_hash: Seq<u8>, seal: Seq<u8>)
    requires
        seal.len() >= seal_len(),
    ensures
        seal_accepted(pre_hash, seal, fixed_difficulty()) <==> {
            &&& seal_work(pre_hash, seal) == seal.subrange(8, 40)
            &&& seal[8] <= 1
            &&& forall|i: int| 9 <= i < 24 ==> seal[i] == 0
        },
{
    let claimed = seal.subrange(8, 40);
    let prefix = claimed.subrange(0, 16);
    let rest = prefix.drop_first();
    assert(le_value(prefix) == prefix[0] as nat + 256 * le_value(rest));
    lemma_le_value_zero(rest);
    assert forall|i: int| 9 <= i < 24 implies seal[i] == rest[i - 9] by {}
    if forall|i: int| 9 <= i < 24 ==> seal[i] == 0 {
        assert forall|k: int| 0 <= k < rest.len() implies rest[k] == 0 by {
            assert(seal[k + 9] == 0);
        }
    }
}

/// Work is accepted exactly when the computed hash is the claimed one, whole, and its first 16
/// bytes, read little-endian, are at most the difficulty; at every difficulty.
pub proof fn lemma_work_acceptance(computed: Seq<u8>, claimed: Seq<u8>, difficulty: u128)
    ensures
        work_meets(computed, claimed, difficulty) <==> (computed == claimed && le_value(
            computed.subrange(0, 16),
        ) <= difficulty),
        work_meets(computed, claimed, difficulty) ==> computed == claimed,
{
}

/// At every difficulty, a seal is accepted exactly when it has at least 40 bytes, its bytes
/// 8..40 are the whole Blake2-256 hash of the pre-hash followed by its bytes 0..8, and bytes
/// 8..24 of it, read little-endian, are at most the difficulty.
pub proof fn lemma_seal_acceptance(pre_hash: Seq<u8>, seal: Seq<u8>, difficulty: u128)
    ensures
        seal_accepted(pre_hash, seal, difficulty) <==> {
            &&& seal.len() >= 40
            &&& blake2_256_of(pre_hash + seal.subrange(0, 8)) == seal.subrange(8, 40)
            &&& le_value(seal.subrange(8, 24)) <= difficulty
        },
        seal_accepted(pre_hash, seal, difficulty) ==> blake2_256_of(pre_hash + seal.subrange(0, 8))
            == seal.subrange(8, 40),
{
    if seal.len() >= 40 {
        assert(seal.subrange(8, 40).subrange(0, 16) =~= seal.subrange(8, 24));
    }
}

} // verus!
