//! The record kept of a burn while its attestations come in.
//!
//! There is one record for each burn hash. It is vacant until the first attestation,
//! holds the burn's recipient and amount and the validators that have attested from
//! then on, and is vacant again once the burn is settled.

use vstd::prelude::*;
use crate::constants::MAX_ATTESTORS;
use crate::pubkey::Pubkey;
use crate::state::validator_registry::{power_of, total_power, ValidatorInfo};

verus! {

/// The attestations gathered for one burn.
#[derive(Clone, Debug, PartialEq, Eq)]
pub struct MintRecord {
    /// Who paid for the record, and gets its storage back at settlement.
    pub payer: Pubkey,
    pub burn_tx_hash: [u8; 32],
    pub recipient: Pubkey,
    pub amount: u64,
    /// The validators that have attested, each once, in the order in which they came.
    pub attestations: Vec<Pubkey>,
    /// The sum of the voting power of the validators that have attested.
    pub attested_power: u64,
    pub bump: u8,
}

/// A mint record with its attestors as a sequence.
pub struct MintRecordView {
    pub payer: Pubkey,
    pub burn_tx_hash: [u8; 32],
    pub recipient: Pubkey,
    pub amount: u64,
    pub attestations: Seq<Pubkey>,
    pub attested_power: u64,
    pub bump: u8,
}

impl View for MintRecord {
    type V = MintRecordView;

    open spec fn view(&self) -> MintRecordView {
        MintRecordView {
            payer: self.payer,
            burn_tx_hash: self.burn_tx_hash,
            recipient: self.recipient,
            amount: self.amount,
            attestations: self.attestations@,
            attested_power: self.attested_power,
            bump: self.bump,
        }
    }
}

/// The sum of the voting power that the signers have among the validators. A signer
/// that is no validator counts for nothing.
pub open spec fn power_sum(validators: Seq<ValidatorInfo>, signers: Seq<Pubkey>) -> nat
    decreases signers.len(),
{
    if signers.len() == 0 {
        0
    } else {
        power_sum(validators, signers.drop_last()) + signer_power(validators, signers.last())
    }
}

/// Thirty-two zero bytes.
pub open spec fn zero_bytes() -> [u8; 32] {
    vstd::array::spec_array_fill_for_copy_type::<u8, 32>(0u8)
}

impl MintRecordView {
    /// The record of a burn that nobody has attested yet, or that is settled: no
    /// attestors, no power, and zero in every other field.
    pub open spec fn vacant() -> MintRecordView {
        MintRecordView {
            payer: Pubkey { bytes: zero_bytes() },
            burn_tx_hash: zero_bytes(),
            recipient: Pubkey { bytes: zero_bytes() },
            amount: 0,
            attestations: Seq::empty(),
            attested_power: 0,
            bump: 0,
        }
    }

    /// Whether the record is in use: somebody has attested.
    pub open spec fn is_open(self) -> bool {
        self.attestations.len() > 0
    }

    /// No validator is counted twice, there are no more attestors than there is room
    /// for, and a vacant record holds no power.
    pub open spec fn wf(self) -> bool {
        &&& self.attestations.no_duplicates()
        &&& self.attestations.len() <= MAX_ATTESTORS
        &&& !self.is_open() ==> self.attested_power == 0
    }

    /// The attestors are validators, and the power on the record is the sum of theirs.
    pub open spec fn counts(self, validators: Seq<ValidatorInfo>) -> bool {
        &&& forall|i: int|
            0 <= i < self.attestations.len() ==> power_of(validators, #[trigger] self.attestations[i])
                is Some
        &&& self.attested_power == power_sum(validators, self.attestations)
    }
}

/// The voting power that one signer has among the validators: none if it is no
/// validator.
pub open spec fn signer_power(validators: Seq<ValidatorInfo>, signer: Pubkey) -> nat {
    match power_of(validators, signer) {
        Some(power) => power as nat,
        None => 0,
    }
}

/// Taking one signer out takes its power out of the sum.
pub proof fn lemma_power_sum_remove(validators: Seq<ValidatorInfo>, signers: Seq<Pubkey>, i: int)
    requires
        0 <= i < signers.len(),
    ensures
        power_sum(validators, signers) == power_sum(validators, signers.remove(i)) + signer_power(
            validators,
            signers[i],
        ),
    decreases signers.len(),
{
    if i == signers.len() - 1 {
        assert(signers.remove(i) =~= signers.drop_last());
    } else {
        lemma_power_sum_remove(validators, signers.drop_last(), i);
        assert(signers.remove(i).drop_last() =~= signers.drop_last().remove(i));
        assert(signers.remove(i).last() == signers.last());
    }
}

/// The sum of the power of some signers does not depend on their order.
pub proof fn lemma_power_sum_permutation(
    validators: Seq<ValidatorInfo>,
    signers: Seq<Pubkey>,
    reordered: Seq<Pubkey>,
)
    requires
        signers.to_multiset() == reordered.to_multiset(),
    ensures
        power_sum(validators, signers) == power_sum(validators, reordered),
    decreases signers.len(),
{
    signers.to_multiset_ensures();
    reordered.to_multiset_ensures();
    if signers.len() == 0 {
        assert(reordered.len() == 0);
    } else {
        let last = signers.last();
        assert(signers[signers.len() - 1] == last);
        assert(signers.contains(last));
        assert(reordered.to_multiset().count(last) > 0);
        assert(reordered.contains(last));
        let j = choose|j: int| 0 <= j < reordered.len() && reordered[j] == last;
        assert(signers.drop_last() =~= signers.remove(signers.len() - 1));
        assert(signers.remove(signers.len() - 1).to_multiset() =~= reordered.remove(
            j,
        ).to_multiset());
        lemma_power_sum_permutation(validators, signers.drop_last(), reordered.remove(j));
        lemma_power_sum_remove(validators, reordered, j);
    }
}

/// Where two lists of validators give every signer the same power, the sums agree.
proof fn lemma_power_sum_agrees(
    validators: Seq<ValidatorInfo>,
    others: Seq<ValidatorInfo>,
    signers: Seq<Pubkey>,
)
    requires
        forall|i: int|
            0 <= i < signers.len() ==> power_of(validators, #[trigger] signers[i]) == power_of(
                others,
                signers[i],
            ),
    ensures
        power_sum(validators, signers) == power_sum(others, signers),
    decreases signers.len(),
{
    if signers.len() > 0 {
        let front = signers.drop_last();
        assert forall|i: int| 0 <= i < front.len() implies power_of(validators, #[trigger] front[i])
            == power_of(others, front[i]) by {
            assert(front[i] == signers[i]);
        }
        lemma_power_sum_agrees(validators, others, front);
        assert(signers.last() == signers[signers.len() - 1]);
    }
}

/// The power of all validators is that of the first and that of the rest.
proof fn lemma_total_power_from_front(validators: Seq<ValidatorInfo>)
    requires
        validators.len() > 0,
    ensures
        total_power(validators) == validators.first().voting_power + total_power(
            validators.drop_first(),
        ),
    decreases validators.len(),
{
    if validators.len() == 1 {
        assert(validators.drop_first() =~= Seq::<ValidatorInfo>::empty());
        assert(validators.drop_last() =~= Seq::<ValidatorInfo>::empty());
    } else {
        lemma_total_power_from_front(validators.drop_last());
        assert(validators.drop_last().drop_first() =~= validators.drop_first().drop_last());
        assert(validators.drop_first().last() == validators.last());
        assert(validators.drop_last().first() == validators.first());
    }
}

/// Signers that are validators, each named once, are no more than the validators and
/// hold no more power than all of them.
pub proof fn lemma_distinct_signers_are_bounded(
    validators: Seq<ValidatorInfo>,
    signers: Seq<Pubkey>,
)
    requires
        signers.no_duplicates(),
        forall|i: int| 0 <= i < signers.len() ==> power_of(validators, #[trigger] signers[i]) is Some,
    ensures
        signers.len() <= validators.len(),
        power_sum(validators, signers) <= total_power(validators),
    decreases validators.len(),
{
    if validators.len() == 0 {
        if signers.len() > 0 {
            assert(power_of(validators, signers[0]) is Some);
        }
    } else {
        let key = validators.first().orchestrator_pubkey;
        let rest = validators.drop_first();
        lemma_total_power_from_front(validators);
        let others = if signers.contains(key) {
            let i = choose|i: int| 0 <= i < signers.len() && signers[i] == key;
            lemma_power_sum_remove(validators, signers, i);
            signers.remove(i)
        } else {
            signers
        };
        assert(others.no_duplicates() && !others.contains(key)) by {
            if signers.contains(key) {
                let i = choose|i: int| 0 <= i < signers.len() && signers[i] == key;
                assert forall|a: int, b: int|
                    0 <= a < others.len() && 0 <= b < others.len() && a != b implies others[a]
                    != others[b] by {
                    let a0 = if a < i { a } else { a + 1 };
                    let b0 = if b < i { b } else { b + 1 };
                    assert(others[a] == signers[a0] && others[b] == signers[b0]);
                }
                assert forall|a: int| 0 <= a < others.len() implies others[a] != key by {
                    let a0 = if a < i { a } else { a + 1 };
                    assert(others[a] == signers[a0]);
                }
            }
        }
        assert forall|a: int| 0 <= a < others.len() implies {
            &&& power_of(rest, #[trigger] others[a]) is Some
            &&& power_of(validators, others[a]) == power_of(rest, others[a])
        } by {
            assert(others.contains(others[a]));
            assert(signers.contains(others[a])) by {
                if signers.contains(key) {
                    let i = choose|i: int| 0 <= i < signers.len() && signers[i] == key;
                    let a0 = if a < i { a } else { a + 1 };
                    assert(others[a] == signers[a0]);
                }
            }
            let b = choose|b: int| 0 <= b < signers.len() && signers[b] == others[a];
            assert(power_of(validators, signers[b]) is Some);
        }
        lemma_distinct_signers_are_bounded(rest, others);
        lemma_power_sum_agrees(validators, rest, others);
    }
}

impl Default for MintRecord {
    /// The vacant record.
    fn default() -> (record: MintRecord)
        ensures
            record@ == MintRecordView::vacant(),
    {
        MintRecord {
            payer: Pubkey { bytes: [0u8; 32] },
            burn_tx_hash: [0u8; 32],
            recipient: Pubkey { bytes: [0u8; 32] },
            amount: 0,
            attestations: Vec::new(),
            attested_power: 0,
            bump: 0,
        }
    }
}

impl MintRecord {
    /// Whether `orchestrator` is among the validators that have attested.
    pub fn has_attested(&self, orchestrator: &Pubkey) -> (attested: bool)
        ensures
            attested == self.attestations@.contains(*orchestrator),
    {
        let mut i: usize = 0;
        while i < self.attestations.len()
            invariant
                i <= self.attestations@.len(),
                forall|j: int| 0 <= j < i ==> self.attestations@[j] != *orchestrator,
            decreases self.attestations@.len() - i,
        {
            if self.attestations[i] == *orchestrator {
                return true;
            }
            i = i + 1;
        }
        false
    }
}

} // verus!
