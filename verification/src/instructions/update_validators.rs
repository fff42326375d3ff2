//! Replacing the validator set.

use vstd::prelude::*;
use crate::constants::MAX_VALIDATORS;
use crate::errors::BridgeError;
use crate::pubkey::Pubkey;
use crate::state::bridge_config::BridgeConfig;
use crate::state::validator_registry::{total_power, ValidatorInfo, ValidatorRegistry};

verus! {

/// The validators that take the place of the current ones.
#[derive(Clone, Debug, PartialEq, Eq)]
pub struct UpdateValidatorsParams {
    pub validators: Vec<ValidatorInfo>,
}

/// Why a new validator set is refused, if it is: the caller is not the authority, the
/// set is empty, it has more members than there is room for, or the sum of their
/// voting power does not fit in 64 bits. The first of these that holds is the reason.
pub open spec fn replacement_refusal(
    current_authority: Pubkey,
    authority: Pubkey,
    validators: Seq<ValidatorInfo>,
) -> Option<BridgeError> {
    if authority != current_authority {
        Some(BridgeError::Unauthorized)
    } else if validators.len() == 0 {
        Some(BridgeError::EmptySet)
    } else if validators.len() > MAX_VALIDATORS {
        Some(BridgeError::CapacityExceeded)
    } else if total_power(validators) > u64::MAX {
        Some(BridgeError::PowerOverflow)
    } else {
        None
    }
}

/// The first validators hold no more power than all of them.
proof fn lemma_total_power_of_prefix(validators: Seq<ValidatorInfo>, count: int)
    requires
        0 <= count <= validators.len(),
    ensures
        total_power(validators.take(count)) <= total_power(validators),
    decreases validators.len() - count,
{
    if count == validators.len() {
        assert(validators.take(count) =~= validators);
    } else {
        lemma_total_power_of_prefix(validators, count + 1);
        assert(validators.take(count + 1).drop_last() =~= validators.take(count));
    }
}

/// Puts `params.validators` in the place of the current validators, as a whole, and
/// sets the total to the sum of their voting power. Only the authority of the bridge
/// may do so. A set that is refused leaves the registry as it was.
pub fn update_validators(
    authority: &Pubkey,
    bridge_config: &BridgeConfig,
    validator_registry: &mut ValidatorRegistry,
    params: UpdateValidatorsParams,
) -> (updated: Result<(), BridgeError>)
    ensures
        match replacement_refusal(bridge_config.authority, *authority, params.validators@) {
            Some(error) => updated == Err::<(), BridgeError>(error) && *final(validator_registry)
                == *old(validator_registry),
            None => {
                &&& updated == Ok::<(), BridgeError>(())
                &&& final(validator_registry).validators == params.validators
                &&& final(validator_registry).total_voting_power == total_power(params.validators@)
                &&& final(validator_registry).bump == old(validator_registry).bump
                &&& final(validator_registry).wf()
            },
        },
{
    if *authority != bridge_config.authority {
        return Err(BridgeError::Unauthorized);
    }
    if params.validators.len() == 0 {
        return Err(BridgeError::EmptySet);
    }
    if params.validators.len() > MAX_VALIDATORS {
        return Err(BridgeError::CapacityExceeded);
    }
    let mut total_voting_power: u64 = 0;
    let mut i: usize = 0;
    assert(params.validators@.take(0) =~= Seq::<ValidatorInfo>::empty());
    while i < params.validators.len()
        invariant
            i <= params.validators@.len(),
            0 < params.validators@.len() <= MAX_VALIDATORS,
            *authority == bridge_config.authority,
            *validator_registry == *old(validator_registry),
            total_voting_power == total_power(params.validators@.take(i as int)),
        decreases params.validators@.len() - i,
    {
        proof {
            assert(params.validators@.take(i + 1).drop_last() =~= params.validators@.take(i as int));
            lemma_total_power_of_prefix(params.validators@, i + 1);
        }
        total_voting_power = match total_voting_power.checked_add(params.validators[i].voting_power) {
            Some(sum) => sum,
            None => {
                return Err(BridgeError::PowerOverflow);
            },
        };
        i = i + 1;
    }
    assert(params.validators@.take(i as int) =~= params.validators@);
    validator_registry.validators = params.validators;
    validator_registry.total_voting_power = total_voting_power;
    Ok(())
}

} // verus!
