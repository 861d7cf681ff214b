use pow_node::difficulty::hash_meets_difficulty;
use pow_node::miner::{nonce_hash, Miner, MinerAction, MinerEvent, MinerPhase};

const MAX_LIMBS: [u64; 4] = [u64::MAX; 4];

fn metadata(version: usize, difficulty: [u64; 4]) -> MinerEvent {
    MinerEvent::Metadata { pre_hash: [3u8; 32], difficulty, version }
}

#[test]
fn nonce_hash_is_big_endian_at_the_end() {
    let h = nonce_hash(0x0102_0304_0506_0708);
    let mut expected = [0u8; 32];
    expected[24..].copy_from_slice(&[1, 2, 3, 4, 5, 6, 7, 8]);
    assert_eq!(h, expected);
    assert_eq!(nonce_hash(0), [0u8; 32]);
}

#[test]
fn zero_hash_meets_any_difficulty() {
    assert!(hash_meets_difficulty(&[0u8; 32], &MAX_LIMBS));
}

#[test]
fn difficulty_test_is_overflow_of_product() {
    let mut top = [0u8; 32];
    top[0] = 0x80; // 2^255
    assert!(hash_meets_difficulty(&top, &[1, 0, 0, 0]));
    assert!(!hash_meets_difficulty(&top, &[2, 0, 0, 0]));
    let mut one = [0u8; 32];
    one[31] = 1;
    assert!(hash_meets_difficulty(&one, &MAX_LIMBS));
    let mut two = [0u8; 32];
    two[31] = 2;
    assert!(!hash_meets_difficulty(&two, &MAX_LIMBS));
    // 2^64 times 2^192 is 2^256: just too much.
    let mut hash_2_64 = [0u8; 32];
    hash_2_64[23] = 1;
    assert!(!hash_meets_difficulty(&hash_2_64, &[0, 0, 0, 1]));
    assert!(hash_meets_difficulty(&hash_2_64, &[0, 0, u64::MAX, 0]));
    assert!(hash_meets_difficulty(&[0xffu8; 32], &[0, 0, 0, 0]));
}

#[test]
fn no_metadata_waits_a_second() {
    let mut m = Miner::new();
    let action = m.step(MinerEvent::NoMetadata);
    assert!(matches!(action, MinerAction::Sleep { millis: 1000 }));
    assert_eq!(m.nonce, 0);
    assert!(matches!(m.phase, MinerPhase::AwaitingMetadata));
}

#[test]
fn full_round_submits_and_resets_nonce() {
    let mut m = Miner { nonce: 5, phase: MinerPhase::AwaitingMetadata };
    let action = m.step(metadata(9, MAX_LIMBS));
    match action {
        MinerAction::ComputeSeal { pre_hash, nonce, difficulty } => {
            assert_eq!(pre_hash, [3u8; 32]);
            assert_eq!(nonce, 5);
            assert_eq!(difficulty, MAX_LIMBS);
        }
        _ => panic!("expected a seal computation"),
    }
    let action = m.step(MinerEvent::SealComputed { work: [0u8; 32] });
    assert!(matches!(action, MinerAction::CheckSeal));
    let action = m.step(MinerEvent::SealChecked { valid: true });
    assert!(matches!(action, MinerAction::ReadVersion));
    let action = m.step(MinerEvent::VersionRead { version: 9 });
    assert!(matches!(action, MinerAction::SubmitSeal));
    let action = m.step(MinerEvent::Submitted { accepted: true });
    assert!(matches!(action, MinerAction::Sleep { millis: 1000 }));
    assert_eq!(m.nonce, 0);
    assert!(matches!(m.phase, MinerPhase::AwaitingMetadata));
}

#[test]
fn work_missing_difficulty_retries_with_next_nonce() {
    let mut m = Miner::new();
    m.step(metadata(1, [2, 0, 0, 0]));
    let mut work = [0u8; 32];
    work[0] = 0x80;
    let action = m.step(MinerEvent::SealComputed { work });
    assert!(matches!(action, MinerAction::Sleep { millis: 100 }));
    assert_eq!(m.nonce, 1);
    assert!(matches!(m.phase, MinerPhase::AwaitingMetadata));
}

#[test]
fn invalid_seal_retries_with_next_nonce() {
    let mut m = Miner { nonce: 10, phase: MinerPhase::AwaitingMetadata };
    m.step(metadata(1, MAX_LIMBS));
    m.step(MinerEvent::SealComputed { work: [0u8; 32] });
    let action = m.step(MinerEvent::SealChecked { valid: false });
    assert!(matches!(action, MinerAction::Sleep { millis: 100 }));
    assert_eq!(m.nonce, 11);
}

#[test]
fn changed_version_skips_submission() {
    let mut m = Miner { nonce: 4, phase: MinerPhase::AwaitingMetadata };
    m.step(metadata(1, MAX_LIMBS));
    m.step(MinerEvent::SealComputed { work: [0u8; 32] });
    m.step(MinerEvent::SealChecked { valid: true });
    let action = m.step(MinerEvent::VersionRead { version: 2 });
    assert!(matches!(action, MinerAction::Sleep { millis: 1000 }));
    assert_eq!(m.nonce, 4);
    assert!(matches!(m.phase, MinerPhase::AwaitingMetadata));
}

#[test]
fn refused_submission_moves_to_next_nonce() {
    let mut m = Miner { nonce: 4, phase: MinerPhase::Submitting };
    let action = m.step(MinerEvent::Submitted { accepted: false });
    assert!(matches!(action, MinerAction::Sleep { millis: 1000 }));
    assert_eq!(m.nonce, 5);
}

#[test]
fn expects_only_the_awaited_event() {
    let m = Miner::new();
    assert!(m.expects(&MinerEvent::NoMetadata));
    assert!(!m.expects(&MinerEvent::SealChecked { valid: true }));
    let last = Miner { nonce: u64::MAX, phase: MinerPhase::Submitting };
    assert!(last.expects(&MinerEvent::Submitted { accepted: true }));
    assert!(!last.expects(&MinerEvent::Submitted { accepted: false }));
}
