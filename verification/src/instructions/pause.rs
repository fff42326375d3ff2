//! Pausing the bridge.

use vstd::prelude::*;
use crate::errors::BridgeError;
use crate::events::BridgePaused;
use crate::pubkey::Pubkey;
use crate::state::bridge_config::BridgeConfig;

verus! {

/// Pauses the bridge: burns and attestations are refused until it is taken out of its
/// pause. Only the authority of the bridge may do so.
pub fn pause(authority: &Pubkey, bridge_config: &mut BridgeConfig, timestamp: i64) -> (paused: Result<
    BridgePaused,
    BridgeError,
>)
    ensures
        if *authority == old(bridge_config).authority {
            &&& paused == Ok::<BridgePaused, BridgeError>(
                BridgePaused { authority: *authority, timestamp },
            )
            &&& *final(bridge_config) == BridgeConfig { paused: true, ..*old(bridge_config) }
        } else {
            &&& paused == Err::<BridgePaused, BridgeError>(BridgeError::Unauthorized)
            &&& *final(bridge_config) == *old(bridge_config)
        },
{
    if *authority != bridge_config.authority {
        return Err(BridgeError::Unauthorized);
    }
    bridge_config.paused = true;
    Ok(BridgePaused { authority: *authority, timestamp })
}

} // verus!
