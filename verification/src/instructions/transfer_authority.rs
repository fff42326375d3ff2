//! Handing the authority over the bridge on.

use vstd::prelude::*;
use crate::errors::BridgeError;
use crate::events::AuthorityTransferred;
use crate::pubkey::Pubkey;
use crate::state::bridge_config::BridgeConfig;
use crate::state::bridge_state::BridgeState;

verus! {

/// The key that the authority goes to.
#[derive(Clone, Copy, Debug, PartialEq, Eq)]
pub struct TransferAuthorityParams {
    pub new_authority: Pubkey,
}

/// Why a transfer is refused, if it is: the caller is not the authority held in the
/// settings and in the replay guard, or the new authority is the caller itself.
pub open spec fn transfer_refusal(
    config_authority: Pubkey,
    state_authority: Pubkey,
    authority: Pubkey,
    new_authority: Pubkey,
) -> Option<BridgeError> {
    if authority != config_authority || authority != state_authority {
        Some(BridgeError::Unauthorized)
    } else if authority == new_authority {
        Some(BridgeError::InvalidAuthority)
    } else {
        None
    }
}

/// Hands the authority over the bridge to `params.new_authority`, in the settings and
/// in the replay guard. Only the current authority may do so, and not to itself.
pub fn transfer_authority(
    authority: &Pubkey,
    bridge_config: &mut BridgeConfig,
    bridge_state: &mut BridgeState,
    params: TransferAuthorityParams,
    timestamp: i64,
) -> (transferred: Result<AuthorityTransferred, BridgeError>)
    ensures
        match transfer_refusal(
            old(bridge_config).authority,
            old(bridge_state).authority,
            *authority,
            params.new_authority,
        ) {
            Some(error) => {
                &&& transferred == Err::<AuthorityTransferred, BridgeError>(error)
                &&& *final(bridge_config) == *old(bridge_config)
                &&& *final(bridge_state) == *old(bridge_state)
            },
            None => {
                &&& transferred == Ok::<AuthorityTransferred, BridgeError>(
                    AuthorityTransferred {
                        old_authority: *authority,
                        new_authority: params.new_authority,
                        timestamp,
                    },
                )
                &&& *final(bridge_config) == BridgeConfig {
                    authority: params.new_authority,
                    ..*old(bridge_config)
                }
                &&& *final(bridge_state) == BridgeState {
                    authority: params.new_authority,
                    ..*old(bridge_state)
                }
            },
        },
{
    if *authority != bridge_config.authority || *authority != bridge_state.authority {
        return Err(BridgeError::Unauthorized);
    }
    let old_authority = *authority;
    let new_authority = params.new_authority;
    if old_authority == new_authority {
        return Err(BridgeError::InvalidAuthority);
    }
    bridge_config.authority = new_authority;
    bridge_state.authority = new_authority;
    Ok(AuthorityTransferred { old_authority, new_authority, timestamp })
}

} // verus!
