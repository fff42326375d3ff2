//! Attesting a burn, and minting once a quorum has attested.
//!
//! Each validator submits its attestation on its own, in any order. An attestation
//! is counted once on the record of its burn. The one that brings the record to its
//! quorum settles the burn: the amount is owed to the recipient, the sequence number
//! is marked in the replay guard, and the record is vacant again.

use vstd::prelude::*;
use crate::constants::{BASIS_POINTS_DENOMINATOR, MAX_ATTESTORS};
use crate::errors::BridgeError;
use crate::events::{MintAttested, MintCompleted};
use crate::pubkey::Pubkey;
use crate::state::bridge_config::BridgeConfig;
use crate::state::bridge_state::{bit_after_settle, Admission, BridgeState, ReplayWindow};
use crate::state::mint_record::{MintRecord, MintRecordView};
use crate::state::validator_registry::{power_of, ValidatorInfo, ValidatorRegistry};
use crate::utils::bitmap::bit_at;
use crate::utils::ed25519::{
    attestation_payload, build_attestation_payload, check_signature_instruction, instruction_view,
    load_preceding_instruction, preceding_instruction, signature_check, PrecedingInstruction,
};

verus! {

/// The chain on which the bridge mints. It is part of every signed message, so that
/// a signature made for one deployment does not pass on another.
pub const DESTINATION_CHAIN: &'static str = "solana";

/// What a validator attests: a burn, by its hash, its sender, its amount and its
/// sequence number.
#[derive(Clone, Debug, PartialEq, Eq)]
pub struct MintParams {
    pub burn_tx_hash: [u8; 32],
    pub mirage_sender: String,
    pub amount: u64,
    pub sequence: u64,
}

/// What became of an attestation that was accepted.
#[derive(Clone, Copy, Debug, PartialEq, Eq)]
pub enum MintOutcome {
    /// The validator had attested this burn before. Nothing changed.
    AlreadyAttested,
    /// The attestation was counted, and the quorum is not reached yet.
    Attested(MintAttested),
    /// The attestation was counted and it settled the burn: the amount is to be minted
    /// to the recipient, and the storage of the record goes back to its payer.
    Completed(MintAttested, MintCompleted),
}

/// One submission of an attestation, with everything that comes with it.
pub struct Attestation {
    pub burn_tx_hash: [u8; 32],
    pub mirage_sender: Seq<char>,
    pub amount: u64,
    pub sequence: u64,
    /// The validator that attests.
    pub orchestrator: Pubkey,
    pub recipient: Pubkey,
    /// Who is named as the payer of the record, to get its storage back.
    pub mint_record_payer: Pubkey,
    /// The instruction that precedes the attestation in its transaction.
    pub proof: Option<(Seq<u8>, Seq<u8>)>,
    pub bump: u8,
    pub timestamp: i64,
}

/// What an attestation can change: the pause and the threshold that it reads, the
/// total minted, the replay guard, and the record of the burn.
pub struct Ledger {
    pub paused: bool,
    pub attestation_threshold: u64,
    pub total_minted: u64,
    pub replay: ReplayWindow,
    pub record: MintRecordView,
}

/// The voting power that settles a burn: the threshold's share of the total, rounded
/// down. `None` where the product does not fit in 64 bits.
pub open spec fn quorum(total_voting_power: u64, attestation_threshold: u64) -> Option<u64> {
    if total_voting_power * attestation_threshold > u64::MAX {
        None
    } else {
        Some(((total_voting_power * attestation_threshold) / 10000) as u64)
    }
}

/// The message that the validator must have signed for this attestation.
pub open spec fn expected_message(attestation: Attestation) -> Seq<u8> {
    attestation_payload(
        attestation.burn_tx_hash@,
        attestation.mirage_sender,
        attestation.amount,
        attestation.recipient@,
        DESTINATION_CHAIN@,
    )
}

/// Why an attestation is refused before the record is looked at, if it is: the bridge
/// is paused, the amount is zero, the replay guard refuses the sequence number, the
/// registry holds no power, the signer is no validator, or the signature proof fails.
/// The first of these that holds is the reason.
pub open spec fn refusal(
    validators: Seq<ValidatorInfo>,
    total_voting_power: u64,
    ledger: Ledger,
    attestation: Attestation,
) -> Option<BridgeError> {
    if ledger.paused {
        Some(BridgeError::BridgePaused)
    } else if attestation.amount == 0 {
        Some(BridgeError::InvalidAmount)
    } else if ledger.replay.admission(attestation.sequence) == Admission::TooOld {
        Some(BridgeError::TooOld)
    } else if ledger.replay.admission(attestation.sequence) == Admission::AlreadySettled {
        Some(BridgeError::AlreadySettled)
    } else if total_voting_power == 0 {
        Some(BridgeError::InvalidValidatorSet)
    } else if power_of(validators, attestation.orchestrator) is None {
        Some(BridgeError::UnauthorizedSigner)
    } else {
        match signature_check(
            attestation.proof,
            attestation.orchestrator@,
            expected_message(attestation),
        ) {
            Err(error) => Some(error),
            Ok(_) => None,
        }
    }
}

/// Why an attestation does not fit the record of its burn, if it does not: the record
/// is in use and holds another hash, another recipient or another amount.
pub open spec fn mismatch(record: MintRecordView, attestation: Attestation) -> Option<BridgeError> {
    if !record.is_open() {
        None
    } else if record.burn_tx_hash != attestation.burn_tx_hash {
        Some(BridgeError::BurnHashMismatch)
    } else if record.recipient != attestation.recipient {
        Some(BridgeError::RecipientMismatch)
    } else if record.amount != attestation.amount {
        Some(BridgeError::AmountMismatch)
    } else {
        None
    }
}

/// The record with one more attestation on it, of a validator of the given power. A
/// vacant record takes the burn and the payer from the attestation, whose validator
/// pays for it.
pub open spec fn record_with(
    record: MintRecordView,
    attestation: Attestation,
    power: u64,
) -> MintRecordView {
    if record.is_open() {
        MintRecordView {
            attestations: record.attestations.push(attestation.orchestrator),
            attested_power: (record.attested_power + power) as u64,
            ..record
        }
    } else {
        MintRecordView {
            payer: attestation.orchestrator,
            burn_tx_hash: attestation.burn_tx_hash,
            recipient: attestation.recipient,
            amount: attestation.amount,
            attestations: seq![attestation.orchestrator],
            attested_power: power,
            bump: attestation.bump,
        }
    }
}

/// The power on the record before an attestation: none on a vacant record.
pub open spec fn power_before(record: MintRecordView) -> u64 {
    if record.is_open() {
        record.attested_power
    } else {
        0
    }
}

/// What an attestation gives and what it leaves behind.
///
/// A refused attestation leaves everything as it was. So does the attestation of a
/// validator that is on the record already, which is accepted. Any other is counted,
/// unless the record is full or the power does not fit in 64 bits. If the power on
/// the record then reaches the quorum, the burn is settled: the total minted grows by
/// the amount, the replay guard marks the sequence number and the record is vacant.
/// For that the total must fit in 64 bits and the payer named must be the payer of
/// the record.
pub open spec fn attest_step(
    validators: Seq<ValidatorInfo>,
    total_voting_power: u64,
    ledger: Ledger,
    attestation: Attestation,
) -> (Result<MintOutcome, BridgeError>, Ledger) {
    let record = ledger.record;
    if let Some(error) = refusal(validators, total_voting_power, ledger, attestation) {
        (Err(error), ledger)
    } else if let Some(error) = mismatch(record, attestation) {
        (Err(error), ledger)
    } else if record.attestations.contains(attestation.orchestrator) {
        (Ok(MintOutcome::AlreadyAttested), ledger)
    } else if record.attestations.len() >= MAX_ATTESTORS {
        (Err(BridgeError::CapacityExceeded), ledger)
    } else {
        let power = power_of(validators, attestation.orchestrator)->Some_0;
        if power_before(record) + power > u64::MAX {
            (Err(BridgeError::PowerOverflow), ledger)
        } else if quorum(total_voting_power, ledger.attestation_threshold) is None {
            (Err(BridgeError::PowerOverflow), ledger)
        } else {
            let counted = record_with(record, attestation, power);
            let required = quorum(total_voting_power, ledger.attestation_threshold)->Some_0;
            let attested = MintAttested {
                burn_tx_hash: attestation.burn_tx_hash,
                orchestrator: attestation.orchestrator,
                current_power: counted.attested_power,
                threshold: required,
            };
            if counted.attested_power < required {
                (Ok(MintOutcome::Attested(attested)), Ledger { record: counted, ..ledger })
            } else if ledger.total_minted + attestation.amount > u64::MAX {
                (Err(BridgeError::AmountOverflow), ledger)
            } else if counted.payer != attestation.mint_record_payer {
                (Err(BridgeError::Unauthorized), ledger)
            } else {
                (
                    Ok(
                        MintOutcome::Completed(
                            attested,
                            MintCompleted {
                                burn_tx_hash: attestation.burn_tx_hash,
                                recipient: attestation.recipient,
                                amount: attestation.amount,
                                timestamp: attestation.timestamp,
                            },
                        ),
                    ),
                    Ledger {
                        total_minted: (ledger.total_minted + attestation.amount) as u64,
                        replay: ledger.replay.settle(attestation.sequence),
                        record: MintRecordView::vacant(),
                        ..ledger
                    },
                )
            }
        }
    }
}

/// The voting power that settles a burn, for a total and a threshold in basis points.
pub fn required_power(total_voting_power: u64, attestation_threshold: u64) -> (required: Result<
    u64,
    BridgeError,
>)
    ensures
        required == match quorum(total_voting_power, attestation_threshold) {
            Some(power) => Ok::<u64, BridgeError>(power),
            None => Err::<u64, BridgeError>(BridgeError::PowerOverflow),
        },
{
    match total_voting_power.checked_mul(attestation_threshold) {
        Some(product) => Ok(product / BASIS_POINTS_DENOMINATOR),
        None => Err(BridgeError::PowerOverflow),
    }
}

/// What an attestation reads and may change, taken from the stored state.
pub open spec fn ledger_of(config: BridgeConfig, state: BridgeState, record: MintRecord) -> Ledger {
    Ledger {
        paused: config.paused,
        attestation_threshold: config.attestation_threshold,
        total_minted: config.total_minted,
        replay: state@,
        record: record@,
    }
}

/// How the stored state after an attestation relates to the state before it: the
/// outcome and the ledger are those of `attest_step`, the bits of the replay guard
/// move as a settlement moves them, and nothing else changes.
pub open spec fn attestation_applied(
    validators: Seq<ValidatorInfo>,
    total_voting_power: u64,
    attestation: Attestation,
    config: BridgeConfig,
    state: BridgeState,
    record: MintRecord,
    outcome: Result<MintOutcome, BridgeError>,
    config_after: BridgeConfig,
    state_after: BridgeState,
    record_after: MintRecord,
) -> bool {
    let step = attest_step(
        validators,
        total_voting_power,
        ledger_of(config, state, record),
        attestation,
    );
    &&& outcome == step.0
    &&& ledger_of(config_after, state_after, record_after) == step.1
    &&& config_after == BridgeConfig { total_minted: step.1.total_minted, ..config }
    &&& state_after.bump == state.bump
    &&& state_after.authority == state.authority
    &&& state_after.orchestrator == state.orchestrator
    &&& if outcome matches Ok(MintOutcome::Completed(_, _)) {
        forall|j: int|
            bit_at(state_after.replay_bitmap@, j) == bit_after_settle(
                state.replay_bitmap@,
                state.last_sequence,
                attestation.sequence,
                j,
            )
    } else {
        state_after == state
    }
    &&& (outcome is Err || outcome == Ok::<MintOutcome, BridgeError>(MintOutcome::AlreadyAttested))
        ==> record_after == record
}

fn same_hash(left: &[u8; 32], right: &[u8; 32]) -> (same: bool)
    ensures
        same == (*left == *right),
{
    Pubkey { bytes: *left } == Pubkey { bytes: *right }
}

/// Takes in the attestation of `orchestrator` for the burn in `params`, with the
/// instruction that precedes it in its transaction as the proof of its signature.
///
/// `mint_record` is the record of the burn, vacant if nobody has attested it yet;
/// `bump` is stored on a record that this attestation opens. When the attestation
/// settles the burn, `timestamp` is the time put on the settlement.
pub fn submit_attestation(
    bridge_config: &mut BridgeConfig,
    bridge_state: &mut BridgeState,
    validator_registry: &ValidatorRegistry,
    mint_record: &mut MintRecord,
    orchestrator: &Pubkey,
    recipient: &Pubkey,
    mint_record_payer: &Pubkey,
    proof: &Option<PrecedingInstruction>,
    params: &MintParams,
    bump: u8,
    timestamp: i64,
) -> (outcome: Result<MintOutcome, BridgeError>)
    ensures
        attestation_applied(
            validator_registry.validators@,
            validator_registry.total_voting_power,
            Attestation {
                burn_tx_hash: params.burn_tx_hash,
                mirage_sender: params.mirage_sender@,
                amount: params.amount,
                sequence: params.sequence,
                orchestrator: *orchestrator,
                recipient: *recipient,
                mint_record_payer: *mint_record_payer,
                proof: instruction_view(*proof),
                bump,
                timestamp,
            },
            *old(bridge_config),
            *old(bridge_state),
            *old(mint_record),
            outcome,
            *final(bridge_config),
            *final(bridge_state),
            *final(mint_record),
        ),
{
    if bridge_config.paused {
        return Err(BridgeError::BridgePaused);
    }
    if params.amount == 0 {
        return Err(BridgeError::InvalidAmount);
    }
    match bridge_state.check_sequence(params.sequence) {
        Admission::TooOld => {
            return Err(BridgeError::TooOld);
        },
        Admission::AlreadySettled => {
            return Err(BridgeError::AlreadySettled);
        },
        Admission::Allowed => {},
    }
    if validator_registry.total_voting_power == 0 {
        return Err(BridgeError::InvalidValidatorSet);
    }
    let power = match validator_registry.get_validator_power(orchestrator) {
        Some(power) => power,
        None => {
            return Err(BridgeError::UnauthorizedSigner);
        },
    };
    let expected = build_attestation_payload(
        &params.burn_tx_hash,
        params.mirage_sender.as_str(),
        params.amount,
        recipient,
        DESTINATION_CHAIN,
    );
    match check_signature_instruction(proof, orchestrator, expected.as_slice()) {
        Err(error) => {
            return Err(error);
        },
        Ok(_) => {},
    }
    let open = mint_record.attestations.len() > 0;
    if open {
        if !same_hash(&mint_record.burn_tx_hash, &params.burn_tx_hash) {
            return Err(BridgeError::BurnHashMismatch);
        }
        if mint_record.recipient != *recipient {
            return Err(BridgeError::RecipientMismatch);
        }
        if mint_record.amount != params.amount {
            return Err(BridgeError::AmountMismatch);
        }
    }
    if mint_record.has_attested(orchestrator) {
        return Ok(MintOutcome::AlreadyAttested);
    }
    if mint_record.attestations.len() >= MAX_ATTESTORS {
        return Err(BridgeError::CapacityExceeded);
    }
    let power_before: u64 = if open {
        mint_record.attested_power
    } else {
        0
    };
    let current_power = match power_before.checked_add(power) {
        Some(sum) => sum,
        None => {
            return Err(BridgeError::PowerOverflow);
        },
    };
    let required = match required_power(
        validator_registry.total_voting_power,
        bridge_config.attestation_threshold,
    ) {
        Ok(required) => required,
        Err(error) => {
            return Err(error);
        },
    };
    let attested = MintAttested {
        burn_tx_hash: params.burn_tx_hash,
        orchestrator: *orchestrator,
        current_power,
        threshold: required,
    };
    if current_power < required {
        if !open {
            mint_record.payer = *orchestrator;
            mint_record.burn_tx_hash = params.burn_tx_hash;
            mint_record.recipient = *recipient;
            mint_record.amount = params.amount;
            mint_record.bump = bump;
        }
        mint_record.attestations.push(*orchestrator);
        mint_record.attested_power = current_power;
        proof {
            let counted = record_with(
                old(mint_record)@,
                Attestation {
                    burn_tx_hash: params.burn_tx_hash,
                    mirage_sender: params.mirage_sender@,
                    amount: params.amount,
                    sequence: params.sequence,
                    orchestrator: *orchestrator,
                    recipient: *recipient,
                    mint_record_payer: *mint_record_payer,
                    proof: instruction_view(*proof),
                    bump,
                    timestamp,
                },
                power,
            );
            assert(mint_record@.attestations =~= counted.attestations);
            assert(mint_record@ == counted);
        }
        return Ok(MintOutcome::Attested(attested));
    }
    let total_minted = match bridge_config.total_minted.checked_add(params.amount) {
        Some(total) => total,
        None => {
            return Err(BridgeError::AmountOverflow);
        },
    };
    let payer = if open {
        mint_record.payer
    } else {
        *orchestrator
    };
    if payer != *mint_record_payer {
        return Err(BridgeError::Unauthorized);
    }
    bridge_state.settle(params.sequence);
    bridge_config.total_minted = total_minted;
    *mint_record = MintRecord::default();
    Ok(
        MintOutcome::Completed(
            attested,
            MintCompleted {
                burn_tx_hash: params.burn_tx_hash,
                recipient: *recipient,
                amount: params.amount,
                timestamp,
            },
        ),
    )
}

/// Takes in the attestation of `orchestrator` for the burn in `params`. The proof of
/// its signature is the instruction that precedes the attestation in the serialized
/// instructions of its transaction, `instructions_sysvar`.
pub fn mint(
    bridge_config: &mut BridgeConfig,
    bridge_state: &mut BridgeState,
    validator_registry: &ValidatorRegistry,
    mint_record: &mut MintRecord,
    orchestrator: &Pubkey,
    recipient: &Pubkey,
    mint_record_payer: &Pubkey,
    instructions_sysvar: &[u8],
    params: &MintParams,
    bump: u8,
    timestamp: i64,
) -> (outcome: Result<MintOutcome, BridgeError>)
    ensures
        attestation_applied(
            validator_registry.validators@,
            validator_registry.total_voting_power,
            Attestation {
                burn_tx_hash: params.burn_tx_hash,
                mirage_sender: params.mirage_sender@,
                amount: params.amount,
                sequence: params.sequence,
                orchestrator: *orchestrator,
                recipient: *recipient,
                mint_record_payer: *mint_record_payer,
                proof: preceding_instruction(instructions_sysvar@),
                bump,
                timestamp,
            },
            *old(bridge_config),
            *old(bridge_state),
            *old(mint_record),
            outcome,
            *final(bridge_config),
            *final(bridge_state),
            *final(mint_record),
        ),
{
    let proof = load_preceding_instruction(instructions_sysvar);
    submit_attestation(
        bridge_config,
        bridge_state,
        validator_registry,
        mint_record,
        orchestrator,
        recipient,
        mint_record_payer,
        &proof,
        params,
        bump,
        timestamp,
    )
}

} // verus!
