//! What holds of a burn over all of its attestations.
//!
//! The validators of a burn attest one by one, in an order that nobody controls.
//! This module follows a ledger through a sequence of attestations and shows that
//! the order does not matter: the burn is settled as soon as the power gathered
//! reaches the quorum, once, and never again.

use vstd::prelude::*;
use crate::constants::{MAX_ATTESTORS, MAX_VALIDATORS};
use crate::errors::BridgeError;
use crate::instructions::mint::{
    attest_step, expected_message, mismatch, quorum, record_with, refusal, Attestation, Ledger,
    MintOutcome,
};
use crate::pubkey::Pubkey;
use crate::state::bridge_state::{
    lemma_refusal_is_final, lemma_settled_sequence_is_refused, Admission,
};
use crate::state::mint_record::{
    lemma_distinct_signers_are_bounded, lemma_power_sum_permutation, power_sum, signer_power,
    MintRecordView,
};
use crate::state::validator_registry::{power_of, total_power, ValidatorInfo};
use crate::utils::ed25519::signature_check;

verus! {

/// The validators that make the attestations, in their order.
pub open spec fn signers(attestations: Seq<Attestation>) -> Seq<Pubkey> {
    Seq::new(attestations.len(), |i: int| attestations[i].orchestrator)
}

/// The ledger after the attestations have been submitted one after the other.
pub open spec fn ledger_after(
    validators: Seq<ValidatorInfo>,
    total_voting_power: u64,
    ledger: Ledger,
    attestations: Seq<Attestation>,
) -> Ledger
    decreases attestations.len(),
{
    if attestations.len() == 0 {
        ledger
    } else {
        attest_step(
            validators,
            total_voting_power,
            ledger_after(validators, total_voting_power, ledger, attestations.drop_last()),
            attestations.last(),
        ).1
    }
}

/// How many of the attestations, submitted one after the other, settle a burn.
pub open spec fn settlements(
    validators: Seq<ValidatorInfo>,
    total_voting_power: u64,
    ledger: Ledger,
    attestations: Seq<Attestation>,
) -> nat
    decreases attestations.len(),
{
    if attestations.len() == 0 {
        0
    } else {
        let before = ledger_after(validators, total_voting_power, ledger, attestations.drop_last());
        let settled: nat = if attest_step(
            validators,
            total_voting_power,
            before,
            attestations.last(),
        ).0 matches Ok(MintOutcome::Completed(_, _)) {
            1
        } else {
            0
        };
        settlements(validators, total_voting_power, ledger, attestations.drop_last()) + settled
    }
}

/// Two attestations speak of the same burn.
pub open spec fn same_burn(one: Attestation, other: Attestation) -> bool {
    &&& one.burn_tx_hash == other.burn_tx_hash
    &&& one.mirage_sender == other.mirage_sender
    &&& one.amount == other.amount
    &&& one.sequence == other.sequence
    &&& one.recipient == other.recipient
}

/// The attestations are those of one burn that is still to be settled, each by
/// another validator and each with a proof of its signature.
///
/// The registry holds power and its total is the sum of its validators' power; the
/// bridge runs; the record of the burn is vacant; the quorum and, after the burn, the
/// total minted fit in 64 bits; the replay guard allows the sequence number. All name
/// as payer of the record the validator that attests first, who opens it.
pub open spec fn attests_one_burn(
    validators: Seq<ValidatorInfo>,
    total_voting_power: u64,
    ledger: Ledger,
    attestations: Seq<Attestation>,
) -> bool {
    &&& total_voting_power == total_power(validators)
    &&& total_voting_power > 0
    &&& validators.len() <= MAX_VALIDATORS
    &&& !ledger.paused
    &&& !ledger.record.is_open()
    &&& quorum(total_voting_power, ledger.attestation_threshold) is Some
    &&& signers(attestations).no_duplicates()
    &&& forall|i: int|
        0 <= i < attestations.len() ==> {
            let attestation = #[trigger] attestations[i];
            &&& same_burn(attestation, attestations[0])
            &&& attestation.amount > 0
            &&& ledger.total_minted + attestation.amount <= u64::MAX
            &&& ledger.replay.admission(attestation.sequence) == Admission::Allowed
            &&& power_of(validators, attestation.orchestrator) is Some
            &&& signature_check(
                attestation.proof,
                attestation.orchestrator@,
                expected_message(attestation),
            ) is Ok
            &&& attestation.mint_record_payer == attestations[0].orchestrator
        }
}

/// The power that the validators of the attestations hold together.
pub open spec fn power_gathered(validators: Seq<ValidatorInfo>, attestations: Seq<Attestation>) -> nat {
    power_sum(validators, signers(attestations))
}

/// Whether the attestations reach the quorum: there is one at least, and their
/// validators hold the power that the threshold asks for.
pub open spec fn reaches_quorum(
    validators: Seq<ValidatorInfo>,
    total_voting_power: u64,
    ledger: Ledger,
    attestations: Seq<Attestation>,
) -> bool {
    attestations.len() > 0 && power_gathered(validators, attestations) >= quorum(
        total_voting_power,
        ledger.attestation_threshold,
    )->Some_0
}

/// The record that holds all the attestations: that of the burn, paid by the first
/// validator, with the validators in their order and the sum of their power.
pub open spec fn record_of(
    validators: Seq<ValidatorInfo>,
    ledger: Ledger,
    attestations: Seq<Attestation>,
) -> MintRecordView {
    if attestations.len() == 0 {
        ledger.record
    } else {
        MintRecordView {
            payer: attestations[0].orchestrator,
            burn_tx_hash: attestations[0].burn_tx_hash,
            recipient: attestations[0].recipient,
            amount: attestations[0].amount,
            attestations: signers(attestations),
            attested_power: power_gathered(validators, attestations) as u64,
            bump: attestations[0].bump,
        }
    }
}

/// The ledger after the burn of the attestations is settled.
pub open spec fn settled_ledger(ledger: Ledger, attestations: Seq<Attestation>) -> Ledger {
    Ledger {
        total_minted: (ledger.total_minted + attestations[0].amount) as u64,
        replay: ledger.replay.settle(attestations[0].sequence),
        record: MintRecordView::vacant(),
        ..ledger
    }
}

proof fn lemma_without_last(
    validators: Seq<ValidatorInfo>,
    total_voting_power: u64,
    ledger: Ledger,
    attestations: Seq<Attestation>,
)
    requires
        attests_one_burn(validators, total_voting_power, ledger, attestations),
        attestations.len() > 0,
    ensures
        attests_one_burn(validators, total_voting_power, ledger, attestations.drop_last()),
        signers(attestations).drop_last() == signers(attestations.drop_last()),
        signers(attestations).last() == attestations.last().orchestrator,
        !signers(attestations.drop_last()).contains(attestations.last().orchestrator),
        power_gathered(validators, attestations) == power_gathered(
            validators,
            attestations.drop_last(),
        ) + signer_power(validators, attestations.last().orchestrator),
        attestations.len() <= MAX_ATTESTORS,
        power_gathered(validators, attestations) <= u64::MAX,
{
    let front = attestations.drop_last();
    let all = signers(attestations);
    assert(all.drop_last() =~= signers(front));
    assert forall|i: int, j: int|
        0 <= i < signers(front).len() && 0 <= j < signers(front).len() && i != j implies signers(
        front,
    )[i] != signers(front)[j] by {
        assert(signers(front)[i] == all[i] && signers(front)[j] == all[j]);
    }
    assert forall|i: int| 0 <= i < front.len() implies {
        let attestation = #[trigger] front[i];
        &&& same_burn(attestation, front[0])
        &&& attestation.mint_record_payer == front[0].orchestrator
    } by {
        assert(front[i] == attestations[i]);
        assert(front[0] == attestations[0]);
    }
    assert forall|i: int| 0 <= i < front.len() implies front[i] == attestations[i] by {}
    if signers(front).contains(attestations.last().orchestrator) {
        let i = choose|i: int|
            0 <= i < signers(front).len() && signers(front)[i] == attestations.last().orchestrator;
        assert(all[i] == all[all.len() - 1]);
    }
    assert forall|i: int| 0 <= i < all.len() implies power_of(validators, #[trigger] all[i])
        is Some by {
        assert(power_of(validators, attestations[i].orchestrator) is Some);
    }
    lemma_distinct_signers_are_bounded(validators, all);
}

/// Where the ledger stands after attestations of one burn by distinct validators.
///
/// As long as their power is below the quorum, nothing has been settled and the
/// record holds them all. From the attestation on that reaches the quorum, the burn
/// is settled, once: the total minted has grown by the amount, the replay guard has
/// marked the sequence number, and the record is vacant.
pub proof fn lemma_ledger_after_attestations(
    validators: Seq<ValidatorInfo>,
    total_voting_power: u64,
    ledger: Ledger,
    attestations: Seq<Attestation>,
)
    requires
        attests_one_burn(validators, total_voting_power, ledger, attestations),
    ensures
        reaches_quorum(validators, total_voting_power, ledger, attestations) ==> {
            &&& ledger_after(validators, total_voting_power, ledger, attestations)
                == settled_ledger(ledger, attestations)
            &&& settlements(validators, total_voting_power, ledger, attestations) == 1
        },
        !reaches_quorum(validators, total_voting_power, ledger, attestations) ==> {
            &&& ledger_after(validators, total_voting_power, ledger, attestations) == Ledger {
                record: record_of(validators, ledger, attestations),
                ..ledger
            }
            &&& settlements(validators, total_voting_power, ledger, attestations) == 0
        },
    decreases attestations.len(),
{
    if attestations.len() > 0 {
        let front = attestations.drop_last();
        let last = attestations.last();
        lemma_without_last(validators, total_voting_power, ledger, attestations);
        lemma_ledger_after_attestations(validators, total_voting_power, ledger, front);
        let before = ledger_after(validators, total_voting_power, ledger, front);
        assert(last == attestations[attestations.len() - 1]);
        assert(same_burn(last, attestations[0]));
        if reaches_quorum(validators, total_voting_power, ledger, front) {
            assert(front[0] == attestations[0]);
            lemma_settled_sequence_is_refused(ledger.replay, last.sequence);
            assert(refusal(validators, total_voting_power, before, last) == Some(
                BridgeError::AlreadySettled,
            ));
        } else {
            assert(refusal(validators, total_voting_power, before, last) is None);
            let power = power_of(validators, last.orchestrator)->Some_0;
            let counted = record_with(before.record, last, power);
            if front.len() == 0 {
                assert(power_gathered(validators, front) == 0);
                assert(signers(attestations) =~= seq![last.orchestrator]);
            } else {
                assert(front[0] == attestations[0]);
                lemma_without_last(validators, total_voting_power, ledger, front);
                assert(mismatch(before.record, last) is None);
                assert(signers(attestations) =~= signers(front).push(last.orchestrator));
            }
            assert(counted == record_of(validators, ledger, attestations));
        }
    }
}

/// The order of the attestations does not matter.
///
/// Take the attestations of one burn by distinct validators, and the same validators
/// attesting the same burn in another order. Either way the burn is settled once if
/// their power reaches the quorum and not at all if it does not; the total minted and
/// the replay guard end up the same; and as long as the burn is not settled, the
/// power on the record is the sum of the power of the validators.
pub proof fn lemma_order_of_attestations_does_not_matter(
    validators: Seq<ValidatorInfo>,
    total_voting_power: u64,
    ledger: Ledger,
    attestations: Seq<Attestation>,
    reordered: Seq<Attestation>,
)
    requires
        attests_one_burn(validators, total_voting_power, ledger, attestations),
        attests_one_burn(validators, total_voting_power, ledger, reordered),
        signers(attestations).to_multiset() == signers(reordered).to_multiset(),
        attestations.len() > 0 ==> same_burn(attestations[0], reordered[0]),
    ensures
        ({
            let one = ledger_after(validators, total_voting_power, ledger, attestations);
            let other = ledger_after(validators, total_voting_power, ledger, reordered);
            let settled = reaches_quorum(validators, total_voting_power, ledger, attestations);
            &&& power_gathered(validators, attestations) == power_gathered(validators, reordered)
            &&& settlements(validators, total_voting_power, ledger, attestations) == settlements(
                validators,
                total_voting_power,
                ledger,
                reordered,
            )
            &&& settlements(validators, total_voting_power, ledger, attestations) == if settled {
                1nat
            } else {
                0nat
            }
            &&& one.total_minted == other.total_minted
            &&& one.replay == other.replay
            &&& one.record.attested_power == other.record.attested_power
            &&& one.record.attestations.to_multiset() == other.record.attestations.to_multiset()
            &&& !settled && attestations.len() > 0 ==> one.record.attested_power == power_gathered(
                validators,
                attestations,
            )
        }),
{
    signers(attestations).to_multiset_ensures();
    signers(reordered).to_multiset_ensures();
    assert(attestations.len() == reordered.len());
    lemma_power_sum_permutation(validators, signers(attestations), signers(reordered));
    lemma_ledger_after_attestations(validators, total_voting_power, ledger, attestations);
    lemma_ledger_after_attestations(validators, total_voting_power, ledger, reordered);
    if attestations.len() > 0 {
        lemma_without_last(validators, total_voting_power, ledger, attestations);
    }
}

/// The attestation that brings the power to the quorum settles the burn.
///
/// Take the attestations of one burn by distinct validators, where all but the last
/// stay below the quorum and all of them reach it. Then the last attestation settles
/// the burn, with the sum of the power of all the validators on its record, and it
/// is the only one that does.
pub proof fn lemma_attestation_that_reaches_quorum_settles(
    validators: Seq<ValidatorInfo>,
    total_voting_power: u64,
    ledger: Ledger,
    attestations: Seq<Attestation>,
)
    requires
        attests_one_burn(validators, total_voting_power, ledger, attestations),
        reaches_quorum(validators, total_voting_power, ledger, attestations),
        !reaches_quorum(validators, total_voting_power, ledger, attestations.drop_last()),
    ensures
        settlements(validators, total_voting_power, ledger, attestations) == 1,
        settlements(validators, total_voting_power, ledger, attestations.drop_last()) == 0,
        attest_step(
            validators,
            total_voting_power,
            ledger_after(validators, total_voting_power, ledger, attestations.drop_last()),
            attestations.last(),
        ).0 matches Ok(MintOutcome::Completed(attested, completed)) && {
            &&& attested.current_power == power_gathered(validators, attestations)
            &&& attested.threshold == quorum(total_voting_power, ledger.attestation_threshold)->Some_0
            &&& completed.amount == attestations[0].amount
            &&& completed.recipient == attestations[0].recipient
            &&& completed.burn_tx_hash == attestations[0].burn_tx_hash
        },
{
    let front = attestations.drop_last();
    let last = attestations.last();
    lemma_without_last(validators, total_voting_power, ledger, attestations);
    lemma_ledger_after_attestations(validators, total_voting_power, ledger, front);
    lemma_ledger_after_attestations(validators, total_voting_power, ledger, attestations);
    let before = ledger_after(validators, total_voting_power, ledger, front);
    assert(last == attestations[attestations.len() - 1]);
    assert(same_burn(last, attestations[0]));
    assert(refusal(validators, total_voting_power, before, last) is None);
    if front.len() == 0 {
        assert(power_gathered(validators, front) == 0);
    } else {
        assert(front[0] == attestations[0]);
        lemma_without_last(validators, total_voting_power, ledger, front);
        assert(mismatch(before.record, last) is None);
    }
}

/// An attestation that comes twice counts once.
///
/// When a validator is on the record of the burn it attests, and nothing else speaks
/// against the attestation, then it is accepted and changes nothing. So an
/// attestation that was counted can be submitted again, as often as one likes: it is
/// accepted each time, and the power on the record stays what it was.
pub proof fn lemma_repeated_attestation_changes_nothing(
    validators: Seq<ValidatorInfo>,
    total_voting_power: u64,
    ledger: Ledger,
    attestation: Attestation,
)
    ensures
        refusal(validators, total_voting_power, ledger, attestation) is None && mismatch(
            ledger.record,
            attestation,
        ) is None && ledger.record.attestations.contains(attestation.orchestrator) ==> attest_step(
            validators,
            total_voting_power,
            ledger,
            attestation,
        ) == (Ok::<MintOutcome, BridgeError>(MintOutcome::AlreadyAttested), ledger),
        attest_step(validators, total_voting_power, ledger, attestation).0 matches Ok(
            MintOutcome::Attested(_),
        ) ==> {
            let counted = attest_step(validators, total_voting_power, ledger, attestation).1;
            attest_step(validators, total_voting_power, counted, attestation) == (
                Ok::<MintOutcome, BridgeError>(MintOutcome::AlreadyAttested),
                counted,
            )
        },
{
    if attest_step(validators, total_voting_power, ledger, attestation).0 matches Ok(
        MintOutcome::Attested(_),
    ) {
        let counted = attest_step(validators, total_voting_power, ledger, attestation).1;
        let power = power_of(validators, attestation.orchestrator)->Some_0;
        let record = record_with(ledger.record, attestation, power);
        assert(counted.record == record);
        if ledger.record.is_open() {
            assert(record.attestations.last() == attestation.orchestrator);
        } else {
            assert(record.attestations[0] == attestation.orchestrator);
        }
        assert(record.attestations.contains(attestation.orchestrator));
    }
}

/// A burn that is settled is not minted again.
///
/// After an attestation has settled a burn, every attestation that names the same
/// sequence number is refused and changes nothing.
pub proof fn lemma_settled_burn_is_not_minted_again(
    validators: Seq<ValidatorInfo>,
    total_voting_power: u64,
    ledger: Ledger,
    attestation: Attestation,
    later: Attestation,
)
    requires
        attest_step(validators, total_voting_power, ledger, attestation).0 matches Ok(
            MintOutcome::Completed(_, _),
        ),
        later.sequence == attestation.sequence,
    ensures
        ({
            let settled = attest_step(validators, total_voting_power, ledger, attestation).1;
            let again = attest_step(validators, total_voting_power, settled, later);
            &&& again.0 is Err
            &&& later.amount > 0 ==> again.0 == Err::<MintOutcome, BridgeError>(
                BridgeError::AlreadySettled,
            )
            &&& again.1 == settled
        }),
{
    lemma_settled_sequence_is_refused(ledger.replay, attestation.sequence);
}

/// An attestation that is refused changes nothing, and one whose signature proof
/// fails is refused.
pub proof fn lemma_refused_attestation_changes_nothing(
    validators: Seq<ValidatorInfo>,
    total_voting_power: u64,
    ledger: Ledger,
    attestation: Attestation,
)
    ensures
        attest_step(validators, total_voting_power, ledger, attestation).0 is Err ==> attest_step(
            validators,
            total_voting_power,
            ledger,
            attestation,
        ).1 == ledger,
        signature_check(
            attestation.proof,
            attestation.orchestrator@,
            expected_message(attestation),
        ) is Err ==> attest_step(validators, total_voting_power, ledger, attestation).0 is Err,
{
}

/// An attestation keeps the record of its burn sound.
///
/// If no validator is on the record twice, the record is not over its capacity, and
/// its power is the sum of the power of its validators, then the same holds after any
/// attestation. While the record is in use, its payer, burn hash, recipient and
/// amount stay what the first attestation made them, and an attestation that names
/// another hash, recipient or amount is refused.
pub proof fn lemma_attestation_keeps_record_sound(
    validators: Seq<ValidatorInfo>,
    total_voting_power: u64,
    ledger: Ledger,
    attestation: Attestation,
)
    requires
        ledger.record.wf(),
        ledger.record.counts(validators),
    ensures
        ({
            let step = attest_step(validators, total_voting_power, ledger, attestation);
            let record = step.1.record;
            &&& record.wf()
            &&& record.counts(validators)
            &&& ledger.record.is_open() && record.is_open() ==> {
                &&& record.payer == ledger.record.payer
                &&& record.burn_tx_hash == ledger.record.burn_tx_hash
                &&& record.recipient == ledger.record.recipient
                &&& record.amount == ledger.record.amount
                &&& record.bump == ledger.record.bump
            }
            &&& ledger.record.is_open() && (attestation.burn_tx_hash != ledger.record.burn_tx_hash
                || attestation.recipient != ledger.record.recipient || attestation.amount
                != ledger.record.amount) ==> step.0 is Err
        }),
{
    let step = attest_step(validators, total_voting_power, ledger, attestation);
    if step.0 matches Ok(MintOutcome::Attested(_)) {
        let power = power_of(validators, attestation.orchestrator)->Some_0;
        let old_signers = ledger.record.attestations;
        let new_signers = step.1.record.attestations;
        if ledger.record.is_open() {
            assert(new_signers.drop_last() =~= old_signers);
            assert(new_signers.last() == attestation.orchestrator);
            assert forall|i: int, j: int|
                0 <= i < new_signers.len() && 0 <= j < new_signers.len() && i != j implies new_signers[i]
                != new_signers[j] by {
                if i < old_signers.len() {
                    assert(old_signers.contains(new_signers[i]));
                }
                if j < old_signers.len() {
                    assert(old_signers.contains(new_signers[j]));
                }
            }
        } else {
            assert(new_signers.drop_last() =~= Seq::<Pubkey>::empty());
            assert(power_sum(validators, new_signers.drop_last()) == 0);
        }
    } else if step.0 matches Ok(MintOutcome::Completed(_, _)) {
        assert(power_sum(validators, MintRecordView::vacant().attestations) == 0);
    }
}

/// How many of the attestations, submitted one after the other, settle a burn with
/// the given sequence number.
pub open spec fn settlements_of(
    validators: Seq<ValidatorInfo>,
    total_voting_power: u64,
    ledger: Ledger,
    attestations: Seq<Attestation>,
    sequence: u64,
) -> nat
    decreases attestations.len(),
{
    if attestations.len() == 0 {
        0
    } else {
        let before = ledger_after(validators, total_voting_power, ledger, attestations.drop_last());
        let settled: nat = if attestations.last().sequence == sequence && attest_step(
            validators,
            total_voting_power,
            before,
            attestations.last(),
        ).0 matches Ok(MintOutcome::Completed(_, _)) {
            1
        } else {
            0
        };
        settlements_of(
            validators,
            total_voting_power,
            ledger,
            attestations.drop_last(),
            sequence,
        ) + settled
    }
}

/// A sequence number is settled once at most.
///
/// Whatever attestations are submitted, in whatever order, by whomever and for
/// whatever burns, at most one of those that name a given sequence number settles a
/// burn; and no attestation settles one whose sequence number the replay guard
/// refused at the outset. Once a sequence number is settled the guard refuses it.
pub proof fn lemma_sequence_number_is_settled_once(
    validators: Seq<ValidatorInfo>,
    total_voting_power: u64,
    ledger: Ledger,
    attestations: Seq<Attestation>,
    sequence: u64,
)
    ensures
        settlements_of(validators, total_voting_power, ledger, attestations, sequence) <= 1,
        ledger.replay.admission(sequence) != Admission::Allowed ==> settlements_of(
            validators,
            total_voting_power,
            ledger,
            attestations,
            sequence,
        ) == 0,
        ledger.replay.admission(sequence) != Admission::Allowed || settlements_of(
            validators,
            total_voting_power,
            ledger,
            attestations,
            sequence,
        ) == 1 ==> ledger_after(
            validators,
            total_voting_power,
            ledger,
            attestations,
        ).replay.admission(sequence) != Admission::Allowed,
    decreases attestations.len(),
{
    if attestations.len() > 0 {
        let front = attestations.drop_last();
        let last = attestations.last();
        lemma_sequence_number_is_settled_once(
            validators,
            total_voting_power,
            ledger,
            front,
            sequence,
        );
        let before = ledger_after(validators, total_voting_power, ledger, front);
        let step = attest_step(validators, total_voting_power, before, last);
        if step.0 matches Ok(MintOutcome::Completed(_, _)) {
            assert(step.1.replay == before.replay.settle(last.sequence));
            assert(before.replay.admission(last.sequence) == Admission::Allowed);
            if last.sequence == sequence {
                lemma_settled_sequence_is_refused(before.replay, sequence);
            } else if before.replay.admission(sequence) != Admission::Allowed {
                lemma_refusal_is_final(before.replay, sequence, last.sequence);
            }
        } else {
            assert(step.1.replay == before.replay);
        }
    }
}

} // verus!
