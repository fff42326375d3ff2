use vstd::prelude::*;

verus! {

/// Largest number of validators in the registry, and of attestors on one record.
pub const MAX_VALIDATORS: usize = 10;

/// Largest number of distinct attestors that one mint record holds.
pub const MAX_ATTESTORS: usize = MAX_VALIDATORS;

/// Longest validator address on the origin chain, in bytes.
pub const MAX_VALIDATOR_ADDR_LEN: usize = 52;

/// Longest recipient address on the origin chain, in bytes.
pub const MAX_RECIPIENT_LEN: usize = 64;

/// Longest chain identifier, in bytes.
pub const MAX_CHAIN_ID_LEN: usize = 32;

/// The attestation threshold is a number of these parts of the total voting power.
pub const BASIS_POINTS_DENOMINATOR: u64 = 10000;

/// Number of sequence numbers, counted back from the last one settled, that the replay
/// guard keeps track of.
pub const REPLAY_WINDOW: u64 = 1024;

} // verus!
