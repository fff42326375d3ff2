//! What the bridge reports of an operation that went through.

use vstd::prelude::*;
use crate::pubkey::Pubkey;

verus! {

/// Tokens were burned for a recipient on the origin chain.
#[derive(Clone, Debug, PartialEq, Eq)]
pub struct BurnInitiated {
    pub burn_id: u64,
    pub solana_sender: Pubkey,
    pub mirage_recipient: String,
    pub amount: u64,
    pub timestamp: i64,
}

/// A validator's attestation was counted: the power gathered so far, and the power needed.
#[derive(Clone, Copy, Debug, PartialEq, Eq)]
pub struct MintAttested {
    pub burn_tx_hash: [u8; 32],
    pub orchestrator: Pubkey,
    pub current_power: u64,
    pub threshold: u64,
}

/// A burn reached its quorum and was settled: `amount` is owed to `recipient`.
#[derive(Clone, Copy, Debug, PartialEq, Eq)]
pub struct MintCompleted {
    pub burn_tx_hash: [u8; 32],
    pub recipient: Pubkey,
    pub amount: u64,
    pub timestamp: i64,
}

/// The bridge was paused.
#[derive(Clone, Copy, Debug, PartialEq, Eq)]
pub struct BridgePaused {
    pub authority: Pubkey,
    pub timestamp: i64,
}

/// The bridge was taken out of its pause.
#[derive(Clone, Copy, Debug, PartialEq, Eq)]
pub struct BridgeUnpaused {
    pub authority: Pubkey,
    pub timestamp: i64,
}

/// The authority over the bridge passed to another key.
#[derive(Clone, Copy, Debug, PartialEq, Eq)]
pub struct AuthorityTransferred {
    pub old_authority: Pubkey,
    pub new_authority: Pubkey,
    pub timestamp: i64,
}

} // verus!
