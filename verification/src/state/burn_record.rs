//! The receipt kept of each burn.

use vstd::prelude::*;
use crate::pubkey::Pubkey;

verus! {

/// Receipt of one burn.
#[derive(Clone, Debug, PartialEq, Eq)]
pub struct BurnRecord {
    pub burn_id: u64,
    pub solana_sender: Pubkey,
    pub mirage_recipient: String,
    pub amount: u64,
    pub timestamp: i64,
    pub bump: u8,
}

} // verus!
