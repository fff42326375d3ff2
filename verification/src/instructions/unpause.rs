//! Taking the bridge out of its pause.

use vstd::prelude::*;
use crate::errors::BridgeError;
use crate::events::BridgeUnpaused;
use crate::pubkey::Pubkey;
use crate::state::bridge_config::BridgeConfig;

verus! {

/// Takes the bridge out of its pause. Only the authority of the bridge may do so.
pub fn unpause(authority: &Pubkey, bridge_config: &mut BridgeConfig, timestamp: i64) -> (unpaused:
    Result<BridgeUnpaused, BridgeError>)
    ensures
        if *authority == old(bridge_config).authority {
            &&& unpaused == Ok::<BridgeUnpaused, BridgeError>(
                BridgeUnpaused { authority: *authority, timestamp },
            )
            &&& *final(bridge_config) == BridgeConfig { paused: false, ..*old(bridge_config) }
        } else {
            &&& unpaused == Err::<BridgeUnpaused, BridgeError>(BridgeError::Unauthorized)
            &&& *final(bridge_config) == *old(bridge_config)
        },
{
    if *authority != bridge_config.authority {
        return Err(BridgeError::Unauthorized);
    }
    bridge_config.paused = false;
    Ok(BridgeUnpaused { authority: *authority, timestamp })
}

} // verus!
