//! Burning tokens for a recipient on the origin chain.

use vstd::prelude::*;
use crate::errors::BridgeError;
use crate::events::BurnInitiated;
use crate::pubkey::Pubkey;
use crate::state::bridge_config::BridgeConfig;
use crate::state::burn_record::BurnRecord;
use crate::utils::bech32::{is_mirage_address, validate_mirage_address};

verus! {

/// A burn that a user asks for: how much, and for whom on the origin chain.
#[derive(Clone, Debug, PartialEq, Eq)]
pub struct BurnParams {
    pub mirage_recipient: String,
    pub amount: u64,
}

/// Why a burn is refused, if it is: the bridge is paused, the amount is zero, the
/// recipient is no address of the origin chain, the burn counter is at its end, or
/// the total burned would not fit in 64 bits. The first of these that holds is the
/// reason.
pub open spec fn burn_refusal(config: BridgeConfig, mirage_recipient: Seq<char>, amount: u64) -> Option<
    BridgeError,
> {
    if config.paused {
        Some(BridgeError::BridgePaused)
    } else if amount == 0 {
        Some(BridgeError::InvalidAmount)
    } else if !is_mirage_address(mirage_recipient) {
        Some(BridgeError::InvalidMirageRecipient)
    } else if config.burn_nonce == u64::MAX {
        Some(BridgeError::NonceOverflow)
    } else if config.total_burned + amount > u64::MAX {
        Some(BridgeError::AmountOverflow)
    } else {
        None
    }
}

/// Books a burn of `params.amount` by `user`: the burn gets the next identifier, the
/// total burned grows by the amount, and `burn_record` becomes its receipt. What
/// comes back says what was burned and for whom. A burn that is refused changes
/// nothing.
pub fn burn(
    user: &Pubkey,
    bridge_config: &mut BridgeConfig,
    burn_record: &mut BurnRecord,
    params: &BurnParams,
    bump: u8,
    timestamp: i64,
) -> (burned: Result<BurnInitiated, BridgeError>)
    ensures
        match burn_refusal(*old(bridge_config), params.mirage_recipient@, params.amount) {
            Some(error) => {
                &&& burned == Err::<BurnInitiated, BridgeError>(error)
                &&& *final(bridge_config) == *old(bridge_config)
                &&& *final(burn_record) == *old(burn_record)
            },
            None => {
                &&& burned == Ok::<BurnInitiated, BridgeError>(
                    BurnInitiated {
                        burn_id: old(bridge_config).burn_nonce,
                        solana_sender: *user,
                        mirage_recipient: params.mirage_recipient,
                        amount: params.amount,
                        timestamp,
                    },
                )
                &&& *final(bridge_config) == BridgeConfig {
                    burn_nonce: (old(bridge_config).burn_nonce + 1) as u64,
                    total_burned: (old(bridge_config).total_burned + params.amount) as u64,
                    ..*old(bridge_config)
                }
                &&& *final(burn_record) == BurnRecord {
                    burn_id: old(bridge_config).burn_nonce,
                    solana_sender: *user,
                    mirage_recipient: params.mirage_recipient,
                    amount: params.amount,
                    timestamp,
                    bump,
                }
            },
        },
{
    if bridge_config.paused {
        return Err(BridgeError::BridgePaused);
    }
    if params.amount == 0 {
        return Err(BridgeError::InvalidAmount);
    }
    match validate_mirage_address(params.mirage_recipient.as_str()) {
        Err(error) => {
            return Err(error);
        },
        Ok(_) => {},
    }
    let current_nonce = bridge_config.burn_nonce;
    let next_nonce = match current_nonce.checked_add(1) {
        Some(next) => next,
        None => {
            return Err(BridgeError::NonceOverflow);
        },
    };
    let total_burned = match bridge_config.total_burned.checked_add(params.amount) {
        Some(total) => total,
        None => {
            return Err(BridgeError::AmountOverflow);
        },
    };
    bridge_config.burn_nonce = next_nonce;
    bridge_config.total_burned = total_burned;

    burn_record.burn_id = current_nonce;
    burn_record.solana_sender = *user;
    burn_record.mirage_recipient = params.mirage_recipient.clone();
    burn_record.amount = params.amount;
    burn_record.timestamp = timestamp;
    burn_record.bump = bump;

    Ok(
        BurnInitiated {
            burn_id: current_nonce,
            solana_sender: *user,
            mirage_recipient: params.mirage_recipient.clone(),
            amount: params.amount,
            timestamp,
        },
    )
}

} // verus!
