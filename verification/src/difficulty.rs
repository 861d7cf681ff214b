//! The 256-bit difficulty test: a hash meets a difficulty when their product fits in 256 bits.
use vstd::prelude::*;

use crate::bytes::{be_value, limbs_value, pow256};

verus! {

/// A hash, read big-endian, times the difficulty stays below `2^256`.
pub open spec fn meets_difficulty(hash: Seq<u8>, difficulty: Seq<u64>) -> bool {
    be_value(hash) * limbs_value(difficulty) < pow256(32)
}

/// Calls `<sp_core::U256 as From<&[u8]>>::from`, which reads the bytes most significant first
/// into the four 64-bit limbs of a `U256`, least significant limb first.
#[verifier::external_body]
fn u256_from_be_bytes(bytes: &[u8; 32]) -> (limbs: [u64; 4])
    ensures
        limbs_value(limbs@) == be_value(bytes@),
{
    sp_core::U256::from(&bytes[..]).0
}

/// Calls `sp_core::U256::overflowing_mul`, whose flag is set exactly when the full product of
/// the two numbers does not fit in 256 bits.
#[verifier::external_body]
fn u256_mul_overflows(a: [u64; 4], b: [u64; 4]) -> (overflow: bool)
    ensures
        overflow == (limbs_value(a@) * limbs_value(b@) >= pow256(32)),
{
    sp_core::U256(a).overflowing_mul(sp_core::U256(b)).1
}

/// Whether `hash` satisfies `difficulty` (limbs least significant first): multiplying the hash,
/// read big-endian, by the difficulty does not overflow 256 bits.
pub fn hash_meets_difficulty(hash: &[u8; 32], difficulty: &[u64; 4]) -> (meets: bool)
    ensures
        meets == meets_difficulty(hash@, difficulty@),
        meets <==> be_value(hash@) * limbs_value(difficulty@) < pow256(32),
        meets ==> be_value(hash@) * limbs_value(difficulty@) < 0x1_0000_0000_0000_0000_0000_0000_0000_0000_0000_0000_0000_0000_0000_0000_0000_0000,
{
    let num_hash = u256_from_be_bytes(hash);
    let meets = !u256_mul_overflows(num_hash, *difficulty);
    proof {
        lemma_difficulty_test(hash@, difficulty@);
    }
    meets
}

/// Lowering the hash, the difficulty or both keeps the difficulty test met.
pub proof fn lemma_meets_difficulty_downward_closed(
    hash: Seq<u8>,
    difficulty: Seq<u64>,
    smaller_hash: Seq<u8>,
    smaller_difficulty: Seq<u64>,
)
    requires
        meets_difficulty(hash, difficulty),
        be_value(smaller_hash) <= be_value(hash),
        limbs_value(smaller_difficulty) <= limbs_value(difficulty),
    ensures
        meets_difficulty(smaller_hash, smaller_difficulty),
{
    let a = be_value(smaller_hash);
    let b = be_value(hash);
    let c = limbs_value(smaller_difficulty);
    let d = limbs_value(difficulty);
    assert(a * c <= b * d) by (nonlinear_arith)
        requires
            a <= b,
            c <= d,
    ;
}

/// `256^32` is `2^256`.
pub proof fn lemma_pow256_32()
    ensures
        pow256(32)
            == 0x1_0000_0000_0000_0000_0000_0000_0000_0000_0000_0000_0000_0000_0000_0000_0000_0000,
{
    reveal_with_fuel(pow256, 33);
}

/// A hash meets a difficulty exactly when the hash, read big-endian, times the difficulty,
/// limbs least significant first, is below `2^256`; whatever their sizes.
pub proof fn lemma_difficulty_test(hash: Seq<u8>, difficulty: Seq<u64>)
    ensures
        meets_difficulty(hash, difficulty) <==> be_value(hash) * limbs_value(difficulty)
            < 0x1_0000_0000_0000_0000_0000_0000_0000_0000_0000_0000_0000_0000_0000_0000_0000_0000,
        meets_difficulty(hash, difficulty) <==> be_value(hash) * limbs_value(difficulty) < pow256(
            32,
        ),
{
    lemma_pow256_32();
}

} // verus!
