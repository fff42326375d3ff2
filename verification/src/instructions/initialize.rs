//! Setting the bridge up.

use vstd::prelude::*;
use crate::constants::BASIS_POINTS_DENOMINATOR;
use crate::errors::BridgeError;
use crate::pubkey::Pubkey;
use crate::state::bridge_config::BridgeConfig;
use crate::state::bridge_state::BridgeState;
use crate::state::validator_registry::{ValidatorInfo, ValidatorRegistry};
use crate::utils::bitmap::{is_clear, lemma_zero_bitmap_is_clear};

verus! {

/// The settings that the bridge starts with, and how its token is to be named.
#[derive(Clone, Debug, PartialEq, Eq)]
pub struct InitializeParams {
    pub mirage_chain_id: String,
    pub attestation_threshold: u64,
    pub token_name: String,
    pub token_symbol: String,
    pub token_uri: String,
}

/// Why the settings are refused, if they are: the chain identifier is empty, or the
/// threshold is not between 1 and 10000 basis points.
pub open spec fn initialize_refusal(mirage_chain_id: Seq<char>, attestation_threshold: u64) -> Option<
    BridgeError,
> {
    if mirage_chain_id.len() == 0 {
        Some(BridgeError::InvalidChainId)
    } else if attestation_threshold == 0 || attestation_threshold > 10000 {
        Some(BridgeError::InvalidThreshold)
    } else {
        None
    }
}

/// Sets the bridge up: the settings as given, with nothing minted or burned and the
/// bridge running; a registry without validators; a replay guard that has settled
/// nothing. `authority` governs the bridge from then on and `token_mint` is its
/// token. Settings that are refused leave everything as it was.
pub fn initialize(
    authority: &Pubkey,
    token_mint: &Pubkey,
    bridge_config: &mut BridgeConfig,
    validator_registry: &mut ValidatorRegistry,
    bridge_state: &mut BridgeState,
    params: &InitializeParams,
    bridge_config_bump: u8,
    validator_registry_bump: u8,
    bridge_state_bump: u8,
) -> (initialized: Result<(), BridgeError>)
    ensures
        match initialize_refusal(params.mirage_chain_id@, params.attestation_threshold) {
            Some(error) => {
                &&& initialized == Err::<(), BridgeError>(error)
                &&& *final(bridge_config) == *old(bridge_config)
                &&& *final(validator_registry) == *old(validator_registry)
                &&& *final(bridge_state) == *old(bridge_state)
            },
            None => {
                &&& initialized == Ok::<(), BridgeError>(())
                &&& *final(bridge_config) == BridgeConfig {
                    authority: *authority,
                    mint: *token_mint,
                    mirage_chain_id: params.mirage_chain_id,
                    attestation_threshold: params.attestation_threshold,
                    total_minted: 0,
                    total_burned: 0,
                    burn_nonce: 0,
                    paused: false,
                    bump: bridge_config_bump,
                }
                &&& final(validator_registry).validators@ == Seq::<ValidatorInfo>::empty()
                &&& final(validator_registry).total_voting_power == 0
                &&& final(validator_registry).bump == validator_registry_bump
                &&& final(validator_registry).wf()
                &&& final(bridge_state).bump == bridge_state_bump
                &&& final(bridge_state).authority == *authority
                &&& final(bridge_state).orchestrator == old(bridge_state).orchestrator
                &&& final(bridge_state).last_sequence == 0
                &&& is_clear(final(bridge_state).replay_bitmap@)
            },
        },
{
    if params.mirage_chain_id.as_str().is_empty() {
        return Err(BridgeError::InvalidChainId);
    }
    if params.attestation_threshold == 0 || params.attestation_threshold
        > BASIS_POINTS_DENOMINATOR {
        return Err(BridgeError::InvalidThreshold);
    }
    bridge_config.authority = *authority;
    bridge_config.mint = *token_mint;
    bridge_config.mirage_chain_id = params.mirage_chain_id.clone();
    bridge_config.attestation_threshold = params.attestation_threshold;
    bridge_config.total_minted = 0;
    bridge_config.total_burned = 0;
    bridge_config.burn_nonce = 0;
    bridge_config.paused = false;
    bridge_config.bump = bridge_config_bump;

    validator_registry.validators = Vec::new();
    validator_registry.total_voting_power = 0;
    validator_registry.bump = validator_registry_bump;

    bridge_state.bump = bridge_state_bump;
    bridge_state.authority = *authority;
    bridge_state.last_sequence = 0;
    bridge_state.replay_bitmap = [0u128; 8];
    proof {
        lemma_zero_bitmap_is_clear(bridge_state.replay_bitmap@);
    }
    Ok(())
}

} // verus!
