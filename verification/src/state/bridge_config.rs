//! The bridge's global settings and running totals.

use vstd::prelude::*;
use crate::pubkey::Pubkey;

verus! {

/// Global settings of the bridge and its running totals.
#[derive(Clone, Debug, PartialEq, Eq)]
pub struct BridgeConfig {
    /// Who may pause the bridge, replace the validators and hand the authority on.
    pub authority: Pubkey,
    /// The token that the bridge mints and burns.
    pub mint: Pubkey,
    /// Identifier of the origin chain.
    pub mirage_chain_id: String,
    /// Share of the total voting power that settles a burn, in basis points.
    pub attestation_threshold: u64,
    pub total_minted: u64,
    pub total_burned: u64,
    /// The identifier that the next burn gets.
    pub burn_nonce: u64,
    pub paused: bool,
    pub bump: u8,
}

} // verus!
