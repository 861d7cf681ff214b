//! The decisions of the mining loop: which nonce to try, when to verify, submit, back off.
//!
//! The loop that drives a miner fetches the worker's metadata, computes a seal for the current
//! nonce, checks it, compares the worker's version and submits; each of those is outside work,
//! reported to [`Miner::step`] as a [`MinerEvent`], which answers with the next [`MinerAction`].
use vstd::prelude::*;

use crate::bytes::{be_value, limbs_value, pow256, u64_be_bytes};
use crate::difficulty::{hash_meets_difficulty, meets_difficulty};

verus! {

/// Milliseconds to wait after a failed attempt before fetching the metadata again.
pub const RETRY_DELAY_MS: u64 = 100;

/// Milliseconds to wait after a round that ended otherwise.
pub const ROUND_DELAY_MS: u64 = 1000;

/// Where the miner stands in a round.
#[derive(Debug, Clone, Copy)]
pub enum MinerPhase {
    /// Waiting for the worker's metadata.
    AwaitingMetadata,
    /// A seal is being computed for the metadata read at `version`.
    Computing { version: usize, difficulty: [u64; 4] },
    /// The computed seal met the difficulty and is being checked by the algorithm.
    Checking { version: usize },
    /// The seal is valid; the worker's version is being read again.
    ComparingVersion { version: usize },
    /// The seal has been handed to the worker.
    Submitting,
}

/// What the outside world reports to the miner.
#[derive(Debug, Clone, Copy)]
pub enum MinerEvent {
    /// The worker had no metadata.
    NoMetadata,
    /// The worker's metadata, and its version read right after.
    Metadata { pre_hash: [u8; 32], difficulty: [u64; 4], version: usize },
    /// The seal for the current nonce was computed; `work` is its work hash.
    SealComputed { work: [u8; 32] },
    /// The algorithm's verdict on the seal; a failed check counts as not valid.
    SealChecked { valid: bool },
    /// The worker's version, read once the seal was found valid.
    VersionRead { version: usize },
    /// Whether the worker took the submitted seal.
    Submitted { accepted: bool },
}

/// What the miner asks the outside world to do next.
#[derive(Debug, Clone, Copy)]
pub enum MinerAction {
    /// Wait this many milliseconds, then fetch the worker's metadata.
    Sleep { millis: u64 },
    /// Compute the seal of `pre_hash` with `nonce` (see [`nonce_hash`]) at `difficulty`.
    ComputeSeal { pre_hash: [u8; 32], nonce: u64, difficulty: [u64; 4] },
    /// Check the computed seal with the proof-of-work algorithm.
    CheckSeal,
    /// Read the worker's version.
    ReadVersion,
    /// Submit the encoded seal to the worker.
    SubmitSeal,
}

/// The mining loop's state: the nonce to try next and the phase of the round.
#[derive(Debug, Clone, Copy)]
pub struct Miner {
    pub nonce: u64,
    pub phase: MinerPhase,
}

/// Whether `event` is one that `m` waits for, and, when it makes the miner move to the next
/// nonce, whether that nonce exists.
pub open spec fn expects(m: Miner, event: MinerEvent) -> bool {
    match (m.phase, event) {
        (MinerPhase::AwaitingMetadata, MinerEvent::NoMetadata) => true,
        (MinerPhase::AwaitingMetadata, MinerEvent::Metadata { .. }) => true,
        (MinerPhase::Computing { difficulty, .. }, MinerEvent::SealComputed { work }) =>
            meets_difficulty(work@, difficulty@) || m.nonce < u64::MAX,
        (MinerPhase::Checking { .. }, MinerEvent::SealChecked { valid }) =>
            valid || m.nonce < u64::MAX,
        (MinerPhase::ComparingVersion { .. }, MinerEvent::VersionRead { .. }) => true,
        (MinerPhase::Submitting, MinerEvent::Submitted { accepted }) =>
            accepted || m.nonce < u64::MAX,
        _ => false,
    }
}

/// The miner that starts a round over after a failed attempt, with the next nonce.
pub open spec fn retry(m: Miner) -> (Miner, MinerAction) {
    (
        Miner { nonce: (m.nonce + 1) as u64, phase: MinerPhase::AwaitingMetadata },
        MinerAction::Sleep { millis: RETRY_DELAY_MS },
    )
}

/// The miner and the action after `event`.
pub open spec fn next(m: Miner, event: MinerEvent) -> (Miner, MinerAction) {
    match (m.phase, event) {
        (MinerPhase::AwaitingMetadata, MinerEvent::Metadata { pre_hash, difficulty, version }) => (
            Miner { nonce: m.nonce, phase: MinerPhase::Computing { version, difficulty } },
            MinerAction::ComputeSeal { pre_hash, nonce: m.nonce, difficulty },
        ),
        (MinerPhase::Computing { version, difficulty }, MinerEvent::SealComputed { work }) =>
            if meets_difficulty(work@, difficulty@) {
                (
                    Miner { nonce: m.nonce, phase: MinerPhase::Checking { version } },
                    MinerAction::CheckSeal,
                )
            } else {
                retry(m)
            },
        (MinerPhase::Checking { version }, MinerEvent::SealChecked { valid }) => if valid {
            (
                Miner { nonce: m.nonce, phase: MinerPhase::ComparingVersion { version } },
                MinerAction::ReadVersion,
            )
        } else {
            retry(m)
        },
        (MinerPhase::ComparingVersion { version }, MinerEvent::VersionRead { version: current }) =>
            if current == version {
                (Miner { nonce: m.nonce, phase: MinerPhase::Submitting }, MinerAction::SubmitSeal)
            } else {
                (
                    Miner { nonce: m.nonce, phase: MinerPhase::AwaitingMetadata },
                    MinerAction::Sleep { millis: ROUND_DELAY_MS },
                )
            },
        (MinerPhase::Submitting, MinerEvent::Submitted { accepted }) => (
            Miner {
                nonce: if accepted {
                    0
                } else {
                    (m.nonce + 1) as u64
                },
                phase: MinerPhase::AwaitingMetadata,
            },
            MinerAction::Sleep { millis: ROUND_DELAY_MS },
        ),
        _ => (
            Miner { nonce: m.nonce, phase: MinerPhase::AwaitingMetadata },
            MinerAction::Sleep { millis: ROUND_DELAY_MS },
        ),
    }
}

/// Calls `sp_core::H256::from_low_u64_be`, which puts the 8 bytes of `n`, most significant
/// first, at the end of 32 bytes and zeroes the 24 before them.
#[verifier::external_body]
fn h256_from_low_u64_be(n: u64) -> (hash: [u8; 32])
    ensures
        hash@ == Seq::new(24, |i: int| 0u8) + u64_be_bytes(n),
{
    sp_core::H256::from_low_u64_be(n).0
}

/// The 32-byte nonce that a seal is computed with: 24 zero bytes, then `nonce` big-endian.
pub fn nonce_hash(nonce: u64) -> (hash: [u8; 32])
    ensures
        hash@ == Seq::new(24, |i: int| 0u8) + u64_be_bytes(nonce),
{
    h256_from_low_u64_be(nonce)
}

impl Miner {
    /// A miner at the start of a round, with nonce 0.
    pub fn new() -> (m: Miner)
        ensures
            m.nonce == 0,
            m.phase == MinerPhase::AwaitingMetadata,
    {
        Miner { nonce: 0, phase: MinerPhase::AwaitingMetadata }
    }

    /// Whether the miner waits for `event` (see [`expects`]).
    pub fn expects(&self, event: &MinerEvent) -> (r: bool)
        ensures
            r == expects(*self, *event),
    {
        match (&self.phase, event) {
            (MinerPhase::AwaitingMetadata, MinerEvent::NoMetadata) => true,
            (MinerPhase::AwaitingMetadata, MinerEvent::Metadata { .. }) => true,
            (MinerPhase::Computing { difficulty, .. }, MinerEvent::SealComputed { work }) =>
                hash_meets_difficulty(work, difficulty) || self.nonce < u64::MAX,
            (MinerPhase::Checking { .. }, MinerEvent::SealChecked { valid }) =>
                *valid || self.nonce < u64::MAX,
            (MinerPhase::ComparingVersion { .. }, MinerEvent::VersionRead { .. }) => true,
            (MinerPhase::Submitting, MinerEvent::Submitted { accepted }) =>
                *accepted || self.nonce < u64::MAX,
            _ => false,
        }
    }

    /// Takes in what the outside world reports and says what to do next.
    pub fn step(&mut self, event: MinerEvent) -> (action: MinerAction)
        requires
            expects(*old(self), event),
        ensures
            (*final(self), action) == next(*old(self), event),
    {
        let nonce = self.nonce;
        match event {
            MinerEvent::NoMetadata => MinerAction::Sleep { millis: ROUND_DELAY_MS },
            MinerEvent::Metadata { pre_hash, difficulty, version } => {
                self.phase = MinerPhase::Computing { version, difficulty };
                MinerAction::ComputeSeal { pre_hash, nonce, difficulty }
            },
            MinerEvent::SealComputed { work } => {
                let (version, difficulty) = match self.phase {
                    MinerPhase::Computing { version, difficulty } => (version, difficulty),
                    _ => (0, [0u64; 4]),
                };
                if hash_meets_difficulty(&work, &difficulty) {
                    self.phase = MinerPhase::Checking { version };
                    MinerAction::CheckSeal
                } else {
                    self.retry()
                }
            },
            MinerEvent::SealChecked { valid } => {
                let version = match self.phase {
                    MinerPhase::Checking { version } => version,
                    _ => 0,
                };
                if valid {
                    self.phase = MinerPhase::ComparingVersion { version };
                    MinerAction::ReadVersion
                } else {
                    self.retry()
                }
            },
            MinerEvent::VersionRead { version: current } => {
                let version = match self.phase {
                    MinerPhase::ComparingVersion { version } => version,
                    _ => 0,
                };
                if current == version {
                    self.phase = MinerPhase::Submitting;
                    MinerAction::SubmitSeal
                } else {
                    self.phase = MinerPhase::AwaitingMetadata;
                    MinerAction::Sleep { millis: ROUND_DELAY_MS }
                }
            },
            MinerEvent::Submitted { accepted } => {
                self.nonce = if accepted {
                    0
                } else {
                    nonce + 1
                };
                self.phase = MinerPhase::AwaitingMetadata;
                MinerAction::Sleep { millis: ROUND_DELAY_MS }
            },
        }
    }

    /// Moves to the next nonce and starts a new round after a short wait.
    fn retry(&mut self) -> (action: MinerAction)
        requires
            old(self).nonce < u64::MAX,
        ensures
            (*final(self), action) == retry(*old(self)),
    {
        self.nonce = self.nonce + 1;
        self.phase = MinerPhase::AwaitingMetadata;
        MinerAction::Sleep { millis: RETRY_DELAY_MS }
    }
}

/// The miner after `events`, taken one after another from `m`.
pub open spec fn run(m: Miner, events: Seq<MinerEvent>) -> Miner
    decreases events.len(),
{
    if events.len() == 0 {
        m
    } else {
        next(run(m, events.drop_last()), events.last()).0
    }
}

/// Each of `events` is one that the miner waits for when it comes.
pub open spec fn run_expected(m: Miner, events: Seq<MinerEvent>) -> bool {
    forall|k: int| 0 <= k < events.len() ==> #[trigger] expects(run(m, events.take(k)), events[k])
}

/// The action that the miner answers the `k`-th of `events` with.
pub open spec fn action_at(m: Miner, events: Seq<MinerEvent>, k: int) -> MinerAction {
    next(run(m, events.take(k)), events[k]).1
}

/// Running one more event is one more step.
pub proof fn lemma_run_one_more(m: Miner, events: Seq<MinerEvent>, k: int)
    requires
        0 <= k < events.len(),
    ensures
        run(m, events.take(k + 1)) == next(run(m, events.take(k)), events[k]).0,
{
    assert(events.take(k + 1).drop_last() =~= events.take(k));
}

/// A seal is submitted only at the end of a round of exactly four events: the worker's
/// metadata, a computed seal whose work meets that metadata's difficulty, the algorithm's
/// verdict that the seal is valid, and a version read equal to the one that came with the
/// metadata; the nonce stays the same all through the round.
pub proof fn lemma_submission_follows_a_checked_round(
    m: Miner,
    events: Seq<MinerEvent>,
    k: int,
)
    requires
        m.phase == MinerPhase::AwaitingMetadata,
        run_expected(m, events),
        0 <= k < events.len(),
        action_at(m, events, k) == MinerAction::SubmitSeal,
    ensures
        k >= 3,
        events[k - 3] matches MinerEvent::Metadata { difficulty, version, .. }
            && events[k - 2] matches MinerEvent::SealComputed { work }
            && meets_difficulty(work@, difficulty@)
            && events[k - 1] == (MinerEvent::SealChecked { valid: true })
            && events[k] == (MinerEvent::VersionRead { version }),
        run(m, events.take(k - 3)).nonce == run(m, events.take(k + 1)).nonce,
{
    assert(events.take(0) =~= Seq::<MinerEvent>::empty());
    assert(expects(run(m, events.take(k)), events[k]));
    lemma_run_one_more(m, events, k);
    assert(k >= 1);
    lemma_run_one_more(m, events, k - 1);
    assert(expects(run(m, events.take(k - 1)), events[k - 1]));
    assert(k >= 2);
    lemma_run_one_more(m, events, k - 2);
    assert(expects(run(m, events.take(k - 2)), events[k - 2]));
    assert(k >= 3);
    lemma_run_one_more(m, events, k - 3);
    assert(expects(run(m, events.take(k - 3)), events[k - 3]));
}

/// The nonce goes back to zero only when the worker takes a submitted seal; it moves on by one
/// after a failed attempt (the 100 ms wait) or a refused submission; otherwise it stays.
pub proof fn lemma_nonce_moves(m: Miner, event: MinerEvent)
    requires
        expects(m, event),
    ensures
        event == (MinerEvent::Submitted { accepted: true }) ==> next(m, event).0.nonce == 0,
        event == (MinerEvent::Submitted { accepted: false }) ==> next(m, event).0.nonce
            == m.nonce + 1,
        next(m, event).1 == (MinerAction::Sleep { millis: RETRY_DELAY_MS }) ==> next(
            m,
            event,
        ).0.nonce == m.nonce + 1,
        !(event is Submitted) && next(m, event).1 != (MinerAction::Sleep {
            millis: RETRY_DELAY_MS,
        }) ==> next(m, event).0.nonce == m.nonce,
{
}

/// Every wait ends the round: after a `Sleep` the miner waits for metadata again.
pub proof fn lemma_sleep_ends_round(m: Miner, event: MinerEvent)
    requires
        expects(m, event),
        next(m, event).1 is Sleep,
    ensures
        next(m, event).0.phase == MinerPhase::AwaitingMetadata,
{
}

/// A miner waiting for metadata waits for any metadata and for its absence. Metadata starts a
/// round on exactly the metadata's pre-hash and difficulty with the miner's nonce, remembering
/// the version read with it; no metadata means a one-second wait with nothing changed.
pub proof fn lemma_metadata_starts_round(
    m: Miner,
    pre_hash: [u8; 32],
    difficulty: [u64; 4],
    version: usize,
)
    requires
        m.phase == MinerPhase::AwaitingMetadata,
    ensures
        expects(m, MinerEvent::Metadata { pre_hash, difficulty, version }),
        expects(m, MinerEvent::NoMetadata),
        ({
            let (m2, action) = next(m, MinerEvent::Metadata { pre_hash, difficulty, version });
            &&& action matches MinerAction::ComputeSeal { pre_hash: p, nonce: n, difficulty: d }
            &&& p@ == pre_hash@
            &&& n == m.nonce
            &&& d@ == difficulty@
            &&& m2.nonce == m.nonce
            &&& m2.phase matches MinerPhase::Computing { version: v, difficulty: d2 }
            &&& v == version
            &&& d2@ == difficulty@
        }),
        ({
            let (m2, action) = next(m, MinerEvent::NoMetadata);
            &&& action == (MinerAction::Sleep { millis: 1000 })
            &&& m2.nonce == m.nonce
            &&& m2.phase == MinerPhase::AwaitingMetadata
        }),
{
}

/// A computed seal goes on to the algorithm's check exactly when its work hash, read
/// big-endian, times the round's difficulty is below `2^256`; otherwise the miner waits 100 ms
/// and moves to the next nonce.
pub proof fn lemma_computed_seal_decision(
    m: Miner,
    version: usize,
    difficulty: [u64; 4],
    work: [u8; 32],
)
    requires
        m.phase == (MinerPhase::Computing { version, difficulty }),
        m.nonce < u64::MAX,
    ensures
        expects(m, MinerEvent::SealComputed { work }),
        ({
            let (m2, action) = next(m, MinerEvent::SealComputed { work });
            let meets = be_value(work@) * limbs_value(difficulty@) < pow256(32);
            &&& (action == MinerAction::CheckSeal) <==> meets
            &&& meets ==> m2.nonce == m.nonce && m2.phase == (MinerPhase::Checking { version })
            &&& !meets ==> action == (MinerAction::Sleep { millis: 100 }) && m2.nonce == m.nonce + 1
                && m2.phase == MinerPhase::AwaitingMetadata
        }),
{
}

/// A valid seal leads to reading the version again; an invalid one to a 100 ms wait and the
/// next nonce.
pub proof fn lemma_checked_seal_decision(m: Miner, version: usize, valid: bool)
    requires
        m.phase == (MinerPhase::Checking { version }),
        m.nonce < u64::MAX,
    ensures
        expects(m, MinerEvent::SealChecked { valid }),
        ({
            let (m2, action) = next(m, MinerEvent::SealChecked { valid });
            &&& valid ==> action == MinerAction::ReadVersion && m2.nonce == m.nonce && m2.phase == (
            MinerPhase::ComparingVersion { version })
            &&& !valid ==> action == (MinerAction::Sleep { millis: 100 }) && m2.nonce == m.nonce
                + 1 && m2.phase == MinerPhase::AwaitingMetadata
        }),
{
}

/// The seal is submitted exactly when the version read again is the one read with the
/// metadata; otherwise the miner waits a second and keeps its nonce.
pub proof fn lemma_version_decision(m: Miner, version: usize, current: usize)
    requires
        m.phase == (MinerPhase::ComparingVersion { version }),
    ensures
        expects(m, MinerEvent::VersionRead { version: current }),
        ({
            let (m2, action) = next(m, MinerEvent::VersionRead { version: current });
            &&& (action == MinerAction::SubmitSeal) <==> current == version
            &&& m2.nonce == m.nonce
            &&& current == version ==> m2.phase == MinerPhase::Submitting
            &&& current != version ==> action == (MinerAction::Sleep { millis: 1000 }) && m2.phase
                == MinerPhase::AwaitingMetadata
        }),
{
}

/// After a submission the miner waits a second for new metadata; the nonce restarts at zero
/// when the worker took the seal and moves on by one when it did not.
pub proof fn lemma_submission_outcome(m: Miner, accepted: bool)
    requires
        m.phase == MinerPhase::Submitting,
        m.nonce < u64::MAX,
    ensures
        expects(m, MinerEvent::Submitted { accepted }),
        ({
            let (m2, action) = next(m, MinerEvent::Submitted { accepted });
            &&& action == (MinerAction::Sleep { millis: 1000 })
            &&& m2.phase == MinerPhase::AwaitingMetadata
            &&& accepted ==> m2.nonce == 0
            &&& !accepted ==> m2.nonce == m.nonce + 1
        }),
{
}

/// From any miner waiting for metadata, the round "metadata, a seal whose work meets the
/// difficulty, a valid verdict, the same version" is expected event by event and ends in a
/// submission.
pub proof fn lemma_round_reaches_submission(
    m: Miner,
    pre_hash: [u8; 32],
    difficulty: [u64; 4],
    version: usize,
    work: [u8; 32],
)
    requires
        m.phase == MinerPhase::AwaitingMetadata,
        be_value(work@) * limbs_value(difficulty@) < pow256(32),
    ensures
        ({
            let events = seq![
                MinerEvent::Metadata { pre_hash, difficulty, version },
                MinerEvent::SealComputed { work },
                MinerEvent::SealChecked { valid: true },
                MinerEvent::VersionRead { version },
            ];
            &&& run_expected(m, events)
            &&& action_at(m, events, 3) == MinerAction::SubmitSeal
            &&& run(m, events).phase == MinerPhase::Submitting
            &&& run(m, events).nonce == m.nonce
        }),
{
    let events = seq![
        MinerEvent::Metadata { pre_hash, difficulty, version },
        MinerEvent::SealComputed { work },
        MinerEvent::SealChecked { valid: true },
        MinerEvent::VersionRead { version },
    ];
    assert(events.take(0) =~= Seq::<MinerEvent>::empty());
    lemma_run_one_more(m, events, 0);
    lemma_run_one_more(m, events, 1);
    lemma_run_one_more(m, events, 2);
    lemma_run_one_more(m, events, 3);
    assert(events.take(4) =~= events);
    assert forall|k: int| 0 <= k < events.len() implies #[trigger] expects(
        run(m, events.take(k)),
        events[k],
    ) by {}
}

} // verus!
