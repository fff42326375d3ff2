//! The signature proof of an attestation.
//!
//! A validator does not sign the attestation call itself. The transaction carries,
//! just before the call, an instruction for the ledger's Ed25519 program, which
//! verifies a signature over a message. This module reads that instruction out of
//! the serialized instructions of the transaction and checks that it holds one
//! signature, made with the validator's key, over the message that the attestation
//! stands for.

use vstd::prelude::*;
use vstd::bytes::{spec_u32_to_le_bytes, spec_u64_to_le_bytes, u32_to_le_bytes, u64_to_le_bytes};
use vstd::string::StringSliceAdditionalSpecFns;
use crate::errors::BridgeError;
use crate::pubkey::Pubkey;

verus! {

/// The address of the ledger's Ed25519 signature verification program.
pub const ED25519_PROGRAM_ID: [u8; 32] = [
    0x03, 0x7d, 0x46, 0xd6, 0x7c, 0x93, 0xfb, 0xbe, 0x12, 0xf9, 0x42, 0x8f, 0x83, 0x8d, 0x40, 0xff,
    0x05, 0x70, 0x74, 0x49, 0x27, 0xf4, 0x8a, 0x64, 0xfc, 0xca, 0x70, 0x44, 0x80, 0x00, 0x00, 0x00,
];

/// An instruction of the transaction: the program it is for, and its data.
#[derive(Clone, Debug, PartialEq, Eq)]
pub struct PrecedingInstruction {
    pub program_id: Pubkey,
    pub data: Vec<u8>,
}

impl View for PrecedingInstruction {
    type V = (Seq<u8>, Seq<u8>);

    /// The bytes of the program's address, and the data.
    open spec fn view(&self) -> (Seq<u8>, Seq<u8>) {
        (self.program_id@, self.data@)
    }
}

/// The view of an instruction that may be missing.
pub open spec fn instruction_view(instruction: Option<PrecedingInstruction>) -> Option<
    (Seq<u8>, Seq<u8>),
> {
    match instruction {
        Some(found) => Some(found@),
        None => None,
    }
}

/// The number that two bytes hold, the low byte first.
pub open spec fn le_u16(low: u8, high: u8) -> int {
    low + 256 * high
}

/// The message that a validator signs to attest a burn: the burn hash, the sender's
/// address on the origin chain behind its length in four bytes, the amount in eight
/// bytes, the recipient's key, and the identifier of the destination chain. Numbers
/// are little-endian, text is UTF-8, and the length counts bytes, modulo 2^32.
pub open spec fn attestation_payload(
    burn_tx_hash: Seq<u8>,
    mirage_sender: Seq<char>,
    amount: u64,
    recipient: Seq<u8>,
    destination_chain: Seq<char>,
) -> Seq<u8> {
    burn_tx_hash + spec_u32_to_le_bytes(vstd::utf8::encode_utf8(mirage_sender).len() as u32)
        + vstd::utf8::encode_utf8(mirage_sender) + spec_u64_to_le_bytes(amount) + recipient
        + vstd::utf8::encode_utf8(destination_chain)
}

fn append_bytes(out: &mut Vec<u8>, bytes: &[u8])
    ensures
        final(out)@ == old(out)@ + bytes@,
{
    let mut i: usize = 0;
    while i < bytes.len()
        invariant
            i <= bytes@.len(),
            out@ == old(out)@ + bytes@.take(i as int),
        decreases bytes@.len() - i,
    {
        out.push(bytes[i]);
        assert(bytes@.take(i + 1) =~= bytes@.take(i as int).push(bytes@[i as int]));
        i = i + 1;
    }
    assert(bytes@.take(i as int) =~= bytes@);
}

/// Builds the message that a validator signs to attest a burn.
pub fn build_attestation_payload(
    burn_tx_hash: &[u8; 32],
    mirage_sender: &str,
    amount: u64,
    recipient: &Pubkey,
    destination_chain: &str,
) -> (payload: Vec<u8>)
    ensures
        payload@ == attestation_payload(
            burn_tx_hash@,
            mirage_sender@,
            amount,
            recipient@,
            destination_chain@,
        ),
{
    let mut payload: Vec<u8> = Vec::new();
    append_bytes(&mut payload, burn_tx_hash.as_slice());
    let sender = mirage_sender.as_bytes();
    let prefix = u32_to_le_bytes(#[verifier::truncate] (sender.len() as u32));
    append_bytes(&mut payload, prefix.as_slice());
    append_bytes(&mut payload, sender);
    let amount_bytes = u64_to_le_bytes(amount);
    append_bytes(&mut payload, amount_bytes.as_slice());
    append_bytes(&mut payload, recipient.bytes.as_slice());
    append_bytes(&mut payload, destination_chain.as_bytes());
    payload
}

/// The instruction that stands at `index` in the serialized instructions `sysvar`,
/// as the ledger's own reader finds it, or `None` where it finds none.
pub uninterp spec fn sysvar_instruction(sysvar: Seq<u8>, index: int) -> Option<(Seq<u8>, Seq<u8>)>;

/// Reads, with `load_current_index` of `solana_program::sysvar::instructions`, the
/// index of the instruction that is being executed: the number in the last two bytes
/// of the serialized instructions, the low byte first. Fewer than two bytes are left out.
#[verifier::external_body]
#[allow(deprecated)]
fn load_current_index(sysvar: &[u8]) -> (index: u16)
    requires
        sysvar@.len() >= 2,
    ensures
        index == le_u16(sysvar@[sysvar@.len() - 2], sysvar@[sysvar@.len() - 1]),
{
    anchor_lang::solana_program::sysvar::instructions::load_current_index(sysvar)
}

/// Reads, with `load_instruction_at` of `solana_program::sysvar::instructions`, the
/// instruction at `index` out of the serialized instructions, and keeps its program
/// and its data. What comes back is what `sysvar_instruction` names; an instruction
/// that the reader refuses is `None`.
#[verifier::external_body]
#[allow(deprecated)]
fn load_instruction_at(sysvar: &[u8], index: usize) -> (instruction: Option<PrecedingInstruction>)
    ensures
        instruction_view(instruction) == sysvar_instruction(sysvar@, index as int),
{
    match anchor_lang::solana_program::sysvar::instructions::load_instruction_at(index, sysvar) {
        Ok(found) => Some(
            PrecedingInstruction {
                program_id: Pubkey { bytes: found.program_id.to_bytes() },
                data: found.data,
            },
        ),
        Err(_) => None,
    }
}

/// The instruction just before the one being executed: none where the serialized
/// instructions are shorter than two bytes, where the one being executed is the
/// first, or where the reader finds none there.
pub open spec fn preceding_instruction(sysvar: Seq<u8>) -> Option<(Seq<u8>, Seq<u8>)> {
    if sysvar.len() < 2 {
        None
    } else {
        let current = le_u16(sysvar[sysvar.len() - 2], sysvar[sysvar.len() - 1]);
        if current == 0 {
            None
        } else {
            sysvar_instruction(sysvar, current - 1)
        }
    }
}

/// What the check of a signature proof gives, for the instruction that precedes the
/// attestation, the signer's key and the message that is expected.
///
/// The instruction must be there, be for the Ed25519 program and hold at least two
/// bytes. Its first byte counts the signatures and must be 1. Its first 16 bytes
/// hold the offsets: the key starts at the number in bytes 6 and 7 and is 32 bytes
/// long, the message starts at the number in bytes 10 and 11 and has the length in
/// bytes 12 and 13. Both must lie inside the data, the key must be the signer's and
/// the message the expected one.
pub open spec fn signature_check(
    instruction: Option<(Seq<u8>, Seq<u8>)>,
    signer: Seq<u8>,
    message: Seq<u8>,
) -> Result<(), BridgeError> {
    match instruction {
        None => Err(BridgeError::MissingSignatureStep),
        Some((program_id, data)) => {
            if program_id != ED25519_PROGRAM_ID@ || data.len() < 2 {
                Err(BridgeError::MissingSignatureStep)
            } else if data[0] != 1 {
                Err(BridgeError::UnexpectedSignatureCount)
            } else if data.len() < 16 {
                Err(BridgeError::MalformedSignatureData)
            } else {
                let key_at = le_u16(data[6], data[7]);
                let message_at = le_u16(data[10], data[11]);
                let message_len = le_u16(data[12], data[13]);
                if data.len() < key_at + 32 || data.len() < message_at + message_len {
                    Err(BridgeError::MalformedSignatureData)
                } else if data.subrange(key_at, key_at + 32) != signer {
                    Err(BridgeError::SignerMismatch)
                } else if data.subrange(message_at, message_at + message_len) != message {
                    Err(BridgeError::MessageMismatch)
                } else {
                    Ok(())
                }
            }
        },
    }
}

/// A proof that passes for one signer and message passes for no other signer and
/// for no other message.
pub proof fn lemma_signature_proof_binds(
    instruction: Option<(Seq<u8>, Seq<u8>)>,
    signer: Seq<u8>,
    message: Seq<u8>,
    other_signer: Seq<u8>,
    other_message: Seq<u8>,
)
    requires
        signature_check(instruction, signer, message) is Ok,
        other_signer != signer || other_message != message,
    ensures
        signature_check(instruction, other_signer, other_message) is Err,
        other_signer != signer ==> signature_check(instruction, other_signer, other_message) == Err::<
            (),
            BridgeError,
        >(BridgeError::SignerMismatch),
        other_signer == signer ==> signature_check(instruction, other_signer, other_message) == Err::<
            (),
            BridgeError,
        >(BridgeError::MessageMismatch),
{
}

fn read_u16(data: &[u8], at: usize) -> (value: usize)
    requires
        at + 1 < data@.len(),
    ensures
        value == le_u16(data@[at as int], data@[at + 1]),
{
    let low: usize = data[at] as usize;
    let high: usize = data[at + 1] as usize;
    low + 256 * high
}

fn bytes_match(data: &[u8], start: usize, expected: &[u8]) -> (same: bool)
    requires
        start + expected@.len() <= data@.len(),
    ensures
        same == (data@.subrange(start as int, start + expected@.len()) == expected@),
{
    let data_len: usize = data.len();
    let mut i: usize = 0;
    while i < expected.len()
        invariant
            i <= expected@.len(),
            data_len == data@.len(),
            start + expected@.len() <= data@.len(),
            forall|j: int| 0 <= j < i ==> data@[start + j] == expected@[j],
        decreases expected@.len() - i,
    {
        if data[start + i] != expected[i] {
            assert(data@.subrange(start as int, start + expected@.len())[i as int] != expected@[i as int]);
            return false;
        }
        i = i + 1;
    }
    assert(data@.subrange(start as int, start + expected@.len()) =~= expected@);
    true
}

/// Finds the instruction that precedes the one being executed in the serialized
/// instructions of the transaction.
pub fn load_preceding_instruction(instructions_sysvar: &[u8]) -> (instruction: Option<
    PrecedingInstruction,
>)
    ensures
        instruction_view(instruction) == preceding_instruction(instructions_sysvar@),
{
    if instructions_sysvar.len() < 2 {
        return None;
    }
    let current_idx = load_current_index(instructions_sysvar);
    if current_idx == 0 {
        return None;
    }
    load_instruction_at(instructions_sysvar, current_idx as usize - 1)
}

/// Checks a signature proof that has been read already: `instruction` is the
/// instruction that precedes the attestation, or `None` where there is none.
pub fn check_signature_instruction(
    instruction: &Option<PrecedingInstruction>,
    orchestrator: &Pubkey,
    expected_message: &[u8],
) -> (checked: Result<(), BridgeError>)
    ensures
        checked == signature_check(instruction_view(*instruction), orchestrator@, expected_message@),
{
    match instruction {
        None => Err(BridgeError::MissingSignatureStep),
        Some(found) => {
            let program = Pubkey { bytes: ED25519_PROGRAM_ID };
            if found.program_id != program {
                proof {
                    found.program_id.lemma_view_injective(program);
                }
                return Err(BridgeError::MissingSignatureStep);
            }
            let data = found.data.as_slice();
            if data.len() < 2 {
                return Err(BridgeError::MissingSignatureStep);
            }
            if data[0] != 1 {
                return Err(BridgeError::UnexpectedSignatureCount);
            }
            if data.len() < 16 {
                return Err(BridgeError::MalformedSignatureData);
            }
            let pubkey_offset = read_u16(data, 6);
            let message_offset = read_u16(data, 10);
            let message_size = read_u16(data, 12);
            if data.len() < pubkey_offset + 32 || data.len() < message_offset + message_size {
                return Err(BridgeError::MalformedSignatureData);
            }
            if !bytes_match(data, pubkey_offset, orchestrator.bytes.as_slice()) {
                return Err(BridgeError::SignerMismatch);
            }
            if expected_message.len() != message_size {
                assert(data@.subrange(
                    message_offset as int,
                    message_offset + message_size,
                ).len() != expected_message@.len());
                return Err(BridgeError::MessageMismatch);
            }
            if !bytes_match(data, message_offset, expected_message) {
                return Err(BridgeError::MessageMismatch);
            }
            Ok(())
        },
    }
}

/// Checks that the instruction before the attestation is a signature verification
/// by `orchestrator` over `expected_message`.
pub fn verify_ed25519_signature(
    instructions_sysvar: &[u8],
    orchestrator: &Pubkey,
    expected_message: &[u8],
) -> (verified: Result<(), BridgeError>)
    ensures
        verified == signature_check(
            preceding_instruction(instructions_sysvar@),
            orchestrator@,
            expected_message@,
        ),
{
    let instruction = load_preceding_instruction(instructions_sysvar);
    check_signature_instruction(&instruction, orchestrator, expected_message)
}

} // verus!
