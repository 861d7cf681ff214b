use parity_scale_codec::Encode;
use pow_node::bytes::le_u128_prefix;
use pow_node::pow::{check_work, PowAlgorithmImpl};

#[allow(deprecated)]
fn work_of(pre_hash: &[u8; 32], nonce: u64) -> [u8; 32] {
    sp_core::blake2_256(&(pre_hash, nonce).encode())
}

fn seal_of(nonce: u64, work: &[u8; 32]) -> Vec<u8> {
    (nonce, *work).encode()
}

fn prefix_value(work: &[u8; 32]) -> u128 {
    let mut bytes = [0u8; 16];
    bytes.copy_from_slice(&work[..16]);
    u128::from_le_bytes(bytes)
}

#[test]
fn difficulty_is_one() {
    assert_eq!(PowAlgorithmImpl.difficulty(&[7u8; 32]), 1);
}

#[test]
fn correct_seal_accepted_at_its_own_value() {
    let pre_hash = [0x11u8; 32];
    let nonce = 42u64;
    let work = work_of(&pre_hash, nonce);
    let seal = seal_of(nonce, &work);
    assert_eq!(seal.len(), 40);
    let value = prefix_value(&work);
    assert!(PowAlgorithmImpl.verify(&pre_hash, None, &seal, value));
    assert!(PowAlgorithmImpl.verify(&pre_hash, None, &seal, u128::MAX));
    assert!(!PowAlgorithmImpl.verify(&pre_hash, None, &seal, value - 1));
}

#[test]
fn seal_for_other_pre_hash_rejected() {
    let nonce = 3u64;
    let work = work_of(&[1u8; 32], nonce);
    let seal = seal_of(nonce, &work);
    assert!(PowAlgorithmImpl.verify(&[1u8; 32], None, &seal, u128::MAX));
    assert!(!PowAlgorithmImpl.verify(&[2u8; 32], None, &seal, u128::MAX));
}

#[test]
fn seal_with_other_nonce_rejected() {
    let pre_hash = [9u8; 32];
    let work = work_of(&pre_hash, 5);
    let seal = seal_of(6, &work);
    assert!(!PowAlgorithmImpl.verify(&pre_hash, None, &seal, u128::MAX));
}

#[test]
fn short_seal_rejected() {
    let pre_hash = [0u8; 32];
    let work = work_of(&pre_hash, 0);
    let seal = seal_of(0, &work);
    assert!(!PowAlgorithmImpl.verify(&pre_hash, None, &seal[..39], u128::MAX));
    assert!(!PowAlgorithmImpl.verify(&pre_hash, None, &[], u128::MAX));
}

#[test]
fn trailing_bytes_ignored() {
    let pre_hash = [0x5au8; 32];
    let work = work_of(&pre_hash, 77);
    let mut seal = seal_of(77, &work);
    seal.extend_from_slice(&[1, 2, 3, 4]);
    assert!(PowAlgorithmImpl.verify(&pre_hash, Some(&[9u8][..]), &seal, u128::MAX));
}

#[test]
fn higher_difficulty_keeps_acceptance() {
    let pre_hash = [0x33u8; 32];
    let work = work_of(&pre_hash, 1000);
    let seal = seal_of(1000, &work);
    let value = prefix_value(&work);
    assert!(PowAlgorithmImpl.verify(&pre_hash, None, &seal, value));
    assert!(PowAlgorithmImpl.verify(&pre_hash, None, &seal, value.saturating_add(1)));
}

#[test]
fn fixed_difficulty_rejects_ordinary_work() {
    let pre_hash = [0x44u8; 32];
    let work = work_of(&pre_hash, 8);
    let seal = seal_of(8, &work);
    assert!(prefix_value(&work) > 1);
    let difficulty = PowAlgorithmImpl.difficulty(&pre_hash);
    assert!(!PowAlgorithmImpl.verify(&pre_hash, None, &seal, difficulty));
}

#[test]
fn check_work_compares_and_bounds() {
    let mut a = [0u8; 32];
    a[0] = 5;
    a[20] = 0xff;
    assert!(check_work(&a, &a, 5));
    assert!(!check_work(&a, &a, 4));
    let mut b = a;
    b[31] = 1;
    assert!(!check_work(&a, &b, u128::MAX));
    let zero = [0u8; 32];
    assert!(check_work(&zero, &zero, 0));
}

#[test]
fn prefix_reads_little_endian() {
    let mut h = [0u8; 32];
    h[0] = 0x01;
    h[1] = 0x02;
    h[15] = 0x80;
    h[16] = 0xff;
    assert_eq!(le_u128_prefix(&h), 0x8000_0000_0000_0000_0000_0000_0000_0201u128);
    assert_eq!(le_u128_prefix(&[0xffu8; 32]), u128::MAX);
}
