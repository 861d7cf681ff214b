//! Byte sequences read as numbers.
use vstd::prelude::*;

verus! {

/// The number whose little-endian digits in base 256 are `s`.
pub open spec fn le_value(s: Seq<u8>) -> nat
    decreases s.len(),
{
    if s.len() == 0 {
        0
    } else {
        s[0] as nat + 256 * le_value(s.drop_first())
    }
}

/// `256` to the power `n`.
pub open spec fn pow256(n: nat) -> nat
    decreases n,
{
    if n == 0 {
        1
    } else {
        256 * pow256((n - 1) as nat)
    }
}

/// A number of `n` little-endian bytes is below `256^n`.
pub proof fn lemma_le_value_bound(s: Seq<u8>)
    ensures
        le_value(s) < pow256(s.len()),
    decreases s.len(),
{
    if s.len() > 0 {
        lemma_le_value_bound(s.drop_first());
        assert(pow256(s.len()) == 256 * pow256(s.drop_first().len()));
    }
}

/// Reads the first 16 bytes of `hash` as a little-endian `u128`.
pub fn le_u128_prefix(hash: &[u8; 32]) -> (r: u128)
    ensures
        r as nat == le_value(hash@.subrange(0, 16)),
{
    let ghost h = hash@;
    let mut acc: u128 = 0;
    let mut i: usize = 16;
    proof {
        assert(h.subrange(16, 16) =~= Seq::<u8>::empty());
        reveal_with_fuel(pow256, 17);
    }
    while i > 0
        invariant
            i <= 16,
            h == hash@,
            h.len() == 32,
            acc as nat == le_value(h.subrange(i as int, 16)),
            (acc as nat) < pow256((16 - i) as nat),
            pow256(16) == 0x1_0000_0000_0000_0000_0000_0000_0000_0000,
        decreases i,
    {
        i = i - 1;
        let b = hash[i];
        proof {
            let s = h.subrange(i as int, 16);
            assert(s.drop_first() =~= h.subrange(i + 1, 16));
            assert(s[0] == b);
            lemma_le_value_bound(s);
            lemma_pow256_mono((16 - i) as nat, 16);
        }
        acc = (b as u128) + 256 * acc;
    }
    acc
}

/// `pow256` does not decrease.
pub proof fn lemma_pow256_mono(a: nat, b: nat)
    requires
        a <= b,
    ensures
        pow256(a) <= pow256(b),
    decreases b - a,
{
    if a < b {
        lemma_pow256_mono(a, (b - 1) as nat);
    }
}

/// A little-endian number is zero exactly when all its bytes are.
pub proof fn lemma_le_value_zero(s: Seq<u8>)
    ensures
        le_value(s) == 0 <==> forall|i: int| 0 <= i < s.len() ==> s[i] == 0,
    decreases s.len(),
{
    if s.len() > 0 {
        lemma_le_value_zero(s.drop_first());
        if le_value(s) == 0 {
            assert forall|i: int| 0 <= i < s.len() implies s[i] == 0 by {
                if i > 0 {
                    assert(s[i] == s.drop_first()[i - 1]);
                }
            }
        }
        if forall|i: int| 0 <= i < s.len() ==> s[i] == 0 {
            assert forall|i: int| 0 <= i < s.drop_first().len() implies s.drop_first()[i] == 0 by {
                assert(s.drop_first()[i] == s[i + 1]);
            }
        }
    }
}

/// The number whose big-endian digits in base 256 are `s`.
pub open spec fn be_value(s: Seq<u8>) -> nat
    decreases s.len(),
{
    if s.len() == 0 {
        0
    } else {
        be_value(s.drop_last()) * 256 + s.last() as nat
    }
}

/// The number whose little-endian digits in base `2^64` are `limbs`.
pub open spec fn limbs_value(limbs: Seq<u64>) -> nat
    decreases limbs.len(),
{
    if limbs.len() == 0 {
        0
    } else {
        limbs[0] as nat + 0x1_0000_0000_0000_0000 * limbs_value(limbs.drop_first())
    }
}

/// The 8 bytes of `n`, most significant first, as `u64::to_be_bytes` gives them.
pub open spec fn u64_be_bytes(n: u64) -> Seq<u8> {
    seq![
        (n >> 56u64) as u8,
        (n >> 48u64) as u8,
        (n >> 40u64) as u8,
        (n >> 32u64) as u8,
        (n >> 24u64) as u8,
        (n >> 16u64) as u8,
        (n >> 8u64) as u8,
        n as u8,
    ]
}

} // verus!
