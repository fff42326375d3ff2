//! The validators whose attestations count, and the voting power of each.

use vstd::prelude::*;
use crate::constants::MAX_VALIDATORS;
use crate::pubkey::Pubkey;

verus! {

/// One validator: the key it signs with, its address on the origin chain, its power.
#[derive(Clone, Debug, PartialEq, Eq)]
pub struct ValidatorInfo {
    pub orchestrator_pubkey: Pubkey,
    pub mirage_validator: String,
    pub voting_power: u64,
}

/// The current validators, in the order in which they were given, and the sum of
/// their voting power.
#[derive(Clone, Debug, PartialEq, Eq)]
pub struct ValidatorRegistry {
    pub validators: Vec<ValidatorInfo>,
    pub total_voting_power: u64,
    pub bump: u8,
}

/// The sum of the voting power of the given validators.
pub open spec fn total_power(validators: Seq<ValidatorInfo>) -> nat
    decreases validators.len(),
{
    if validators.len() == 0 {
        0
    } else {
        total_power(validators.drop_last()) + validators.last().voting_power as nat
    }
}

/// The voting power of the first validator that signs with `key`, if there is one.
pub open spec fn power_of(validators: Seq<ValidatorInfo>, key: Pubkey) -> Option<u64>
    decreases validators.len(),
{
    if validators.len() == 0 {
        None
    } else if validators.first().orchestrator_pubkey == key {
        Some(validators.first().voting_power)
    } else {
        power_of(validators.drop_first(), key)
    }
}

/// A key has power exactly when a validator signs with it, and then it is the power
/// of the first such validator.
pub proof fn lemma_power_of_is_first_match(validators: Seq<ValidatorInfo>, key: Pubkey)
    ensures
        power_of(validators, key) is None <==> forall|i: int|
            0 <= i < validators.len() ==> validators[i].orchestrator_pubkey != key,
        power_of(validators, key) matches Some(power) ==> exists|i: int|
            {
                &&& 0 <= i < validators.len()
                &&& #[trigger] validators[i].orchestrator_pubkey == key
                &&& validators[i].voting_power == power
                &&& forall|j: int| 0 <= j < i ==> validators[j].orchestrator_pubkey != key
            },
    decreases validators.len(),
{
    if validators.len() == 0 {
    } else if validators.first().orchestrator_pubkey == key {
        assert(validators[0].orchestrator_pubkey == key);
    } else {
        let rest = validators.drop_first();
        lemma_power_of_is_first_match(rest, key);
        assert forall|i: int| 0 <= i < rest.len() implies rest[i] == validators[i + 1] by {}
        if power_of(rest, key) is None {
            assert forall|i: int| 0 <= i < validators.len() implies validators[i].orchestrator_pubkey
                != key by {
                if i > 0 {
                    assert(rest[i - 1] == validators[i]);
                }
            }
        } else {
            let i = choose|i: int|
                {
                    &&& 0 <= i < rest.len()
                    &&& #[trigger] rest[i].orchestrator_pubkey == key
                    &&& rest[i].voting_power == power_of(rest, key)->Some_0
                    &&& forall|j: int| 0 <= j < i ==> rest[j].orchestrator_pubkey != key
                };
            assert(validators[i + 1].orchestrator_pubkey == key);
            assert forall|j: int| 0 <= j < i + 1 implies validators[j].orchestrator_pubkey
                != key by {
                if j > 0 {
                    assert(rest[j - 1] == validators[j]);
                }
            }
        }
    }
}

impl ValidatorRegistry {
    /// The registry holds no more validators than it has room for, and its total is
    /// the sum of their voting power.
    pub open spec fn wf(&self) -> bool {
        &&& self.validators@.len() <= MAX_VALIDATORS
        &&& self.total_voting_power == total_power(self.validators@)
    }

    /// The voting power of the validator that signs with `orchestrator`: that of the
    /// first such validator in the registry, and `None` for a key that no validator has.
    pub fn get_validator_power(&self, orchestrator: &Pubkey) -> (power: Option<u64>)
        ensures
            power == power_of(self.validators@, *orchestrator),
    {
        let mut i: usize = 0;
        assert(self.validators@.skip(0) =~= self.validators@);
        while i < self.validators.len()
            invariant
                i <= self.validators@.len(),
                power_of(self.validators@, *orchestrator) == power_of(
                    self.validators@.skip(i as int),
                    *orchestrator,
                ),
            decreases self.validators@.len() - i,
        {
            let rest = Ghost(self.validators@.skip(i as int));
            assert(rest@.first() == self.validators@[i as int]);
            assert(rest@.drop_first() =~= self.validators@.skip(i + 1));
            if self.validators[i].orchestrator_pubkey == *orchestrator {
                return Some(self.validators[i].voting_power);
            }
            i = i + 1;
        }
        None
    }
}

} // verus!
