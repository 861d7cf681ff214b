//! Proof-of-work seal checking and the decisions of a proof-of-work miner.
pub mod bytes;
pub mod difficulty;
pub mod hashing;
pub mod miner;
pub mod pow;
pub mod seal;
