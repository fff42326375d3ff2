//! Attestation aggregation and replay protection for a burn-and-mint token bridge.
//!
//! A burn on the origin ledger is minted on the destination ledger once validators
//! holding enough voting power have attested to it. This crate holds the rules of
//! that process: the validator registry, the check of an embedded signature proof,
//! the sliding window that rejects replays, and the per-burn attestation record.

pub mod constants;
pub mod errors;
pub mod events;
pub mod instructions;
pub mod pubkey;
pub mod quorum;
pub mod state;
pub mod utils;
