use anchor_lang::solana_program::ed25519_program;
use anchor_lang::solana_program::pubkey::Pubkey as LedgerKey;
use anchor_lang::solana_program::sysvar::instructions::{
    construct_instructions_data, store_current_index, BorrowedInstruction,
};
use mirage_bridge::errors::BridgeError;
use mirage_bridge::pubkey::Pubkey;
use mirage_bridge::utils::ed25519::{
    build_attestation_payload, check_signature_instruction, load_preceding_instruction,
    verify_ed25519_signature, PrecedingInstruction, ED25519_PROGRAM_ID,
};

fn key(byte: u8) -> Pubkey {
    Pubkey::new_from_array([byte; 32])
}

/// The data of a signature verification: a header of sixteen bytes, then the key,
/// a signature of 64 bytes and the message.
fn signature_data(signer: &Pubkey, message: &[u8]) -> Vec<u8> {
    let mut data = vec![1u8, 0];
    for field in [48u16, u16::MAX, 16, u16::MAX, 112, message.len() as u16, u16::MAX] {
        data.extend_from_slice(&field.to_le_bytes());
    }
    data.extend_from_slice(&signer.bytes);
    data.extend_from_slice(&[0xabu8; 64]);
    data.extend_from_slice(message);
    data
}

fn signature_step(signer: &Pubkey, message: &[u8]) -> Option<PrecedingInstruction> {
    Some(PrecedingInstruction {
        program_id: Pubkey { bytes: ED25519_PROGRAM_ID },
        data: signature_data(signer, message),
    })
}

/// The serialized instructions of a transaction of two instructions, the first with
/// the given program and data, of which the one at `current` is being executed.
fn sysvar_of(program: &LedgerKey, data: &[u8], current: u16) -> Vec<u8> {
    let bridge = LedgerKey::new_from_array([9u8; 32]);
    let other = [7u8, 7, 7];
    let mut sysvar = construct_instructions_data(&[
        BorrowedInstruction { program_id: program, accounts: vec![], data },
        BorrowedInstruction { program_id: &bridge, accounts: vec![], data: &other },
    ]);
    store_current_index(&mut sysvar, current);
    sysvar
}

#[test]
fn program_id_is_that_of_the_ledger() {
    assert_eq!(ED25519_PROGRAM_ID, ed25519_program::ID.to_bytes());
}

#[test]
fn payload_layout() {
    let hash = [0x11u8; 32];
    let payload = build_attestation_payload(&hash, "mirage1abc", 0x0102030405060708, &key(0x22), "solana");
    let mut expected = vec![0x11u8; 32];
    expected.extend_from_slice(&[10, 0, 0, 0]);
    expected.extend_from_slice(b"mirage1abc");
    expected.extend_from_slice(&[8, 7, 6, 5, 4, 3, 2, 1]);
    expected.extend_from_slice(&[0x22u8; 32]);
    expected.extend_from_slice(b"solana");
    assert_eq!(payload, expected);
    assert_eq!(payload.len(), 32 + 4 + 10 + 8 + 32 + 6);
}

#[test]
fn payload_counts_bytes_not_characters() {
    let payload = build_attestation_payload(&[0u8; 32], "é", 1, &key(0), "");
    assert_eq!(&payload[32..36], &[2, 0, 0, 0]);
    assert_eq!(&payload[36..38], "é".as_bytes());
    assert_eq!(payload.len(), 32 + 4 + 2 + 8 + 32);
}

#[test]
fn payload_of_an_empty_sender() {
    let payload = build_attestation_payload(&[5u8; 32], "", u64::MAX, &key(6), "solana");
    assert_eq!(&payload[32..36], &[0, 0, 0, 0]);
    assert_eq!(&payload[36..44], &[0xff; 8]);
    assert_eq!(&payload[76..], b"solana");
}

#[test]
fn payload_binds_the_destination_chain() {
    let one = build_attestation_payload(&[5u8; 32], "mirage1abc", 10, &key(6), "solana");
    let other = build_attestation_payload(&[5u8; 32], "mirage1abc", 10, &key(6), "other");
    assert_ne!(one, other);
}

#[test]
fn proof_by_the_signer_over_the_message_passes() {
    let message = b"the message".to_vec();
    let step = signature_step(&key(3), &message);
    assert_eq!(check_signature_instruction(&step, &key(3), &message), Ok(()));
}

#[test]
fn proof_of_an_empty_message_passes() {
    let step = signature_step(&key(3), &[]);
    assert_eq!(check_signature_instruction(&step, &key(3), &[]), Ok(()));
}

#[test]
fn missing_step_is_refused() {
    assert_eq!(
        check_signature_instruction(&None, &key(3), b"m"),
        Err(BridgeError::MissingSignatureStep)
    );
}

#[test]
fn step_of_another_program_is_refused() {
    let step = Some(PrecedingInstruction { program_id: key(9), data: signature_data(&key(3), b"m") });
    assert_eq!(
        check_signature_instruction(&step, &key(3), b"m"),
        Err(BridgeError::MissingSignatureStep)
    );
}

#[test]
fn step_without_a_count_is_refused() {
    for data in [vec![], vec![1u8]] {
        let step = Some(PrecedingInstruction { program_id: Pubkey { bytes: ED25519_PROGRAM_ID }, data });
        assert_eq!(
            check_signature_instruction(&step, &key(3), b"m"),
            Err(BridgeError::MissingSignatureStep)
        );
    }
}

#[test]
fn other_counts_than_one_are_refused() {
    for count in [0u8, 2, 255] {
        let mut data = signature_data(&key(3), b"m");
        data[0] = count;
        let step = Some(PrecedingInstruction { program_id: Pubkey { bytes: ED25519_PROGRAM_ID }, data });
        assert_eq!(
            check_signature_instruction(&step, &key(3), b"m"),
            Err(BridgeError::UnexpectedSignatureCount)
        );
    }
}

#[test]
fn short_header_is_refused() {
    let mut data = signature_data(&key(3), b"m");
    data.truncate(15);
    let step = Some(PrecedingInstruction { program_id: Pubkey { bytes: ED25519_PROGRAM_ID }, data });
    assert_eq!(
        check_signature_instruction(&step, &key(3), b"m"),
        Err(BridgeError::MalformedSignatureData)
    );
}

#[test]
fn key_outside_the_data_is_refused() {
    let mut data = signature_data(&key(3), b"m");
    let len = data.len() as u16;
    data[6..8].copy_from_slice(&(len - 31).to_le_bytes());
    let step = Some(PrecedingInstruction { program_id: Pubkey { bytes: ED25519_PROGRAM_ID }, data });
    assert_eq!(
        check_signature_instruction(&step, &key(3), b"m"),
        Err(BridgeError::MalformedSignatureData)
    );
}

#[test]
fn message_outside_the_data_is_refused() {
    let mut data = signature_data(&key(3), b"m");
    data[12..14].copy_from_slice(&2u16.to_le_bytes());
    let step = Some(PrecedingInstruction { program_id: Pubkey { bytes: ED25519_PROGRAM_ID }, data });
    assert_eq!(
        check_signature_instruction(&step, &key(3), b"m"),
        Err(BridgeError::MalformedSignatureData)
    );
    let mut data = signature_data(&key(3), b"m");
    data[10..12].copy_from_slice(&u16::MAX.to_le_bytes());
    data[12..14].copy_from_slice(&u16::MAX.to_le_bytes());
    let step = Some(PrecedingInstruction { program_id: Pubkey { bytes: ED25519_PROGRAM_ID }, data });
    assert_eq!(
        check_signature_instruction(&step, &key(3), b"m"),
        Err(BridgeError::MalformedSignatureData)
    );
}

#[test]
fn key_at_the_very_end_is_read() {
    let mut data = vec![1u8, 0];
    for field in [0u16, u16::MAX, 17, u16::MAX, 16, 1, u16::MAX] {
        data.extend_from_slice(&field.to_le_bytes());
    }
    data.push(b'm');
    data.extend_from_slice(&[3u8; 32]);
    let step = Some(PrecedingInstruction { program_id: Pubkey { bytes: ED25519_PROGRAM_ID }, data });
    assert_eq!(check_signature_instruction(&step, &key(3), b"m"), Ok(()));
}

#[test]
fn proof_by_another_signer_is_refused() {
    let step = signature_step(&key(4), b"the message");
    assert_eq!(
        check_signature_instruction(&step, &key(3), b"the message"),
        Err(BridgeError::SignerMismatch)
    );
    let mut nearly = [3u8; 32];
    nearly[31] = 4;
    let step = signature_step(&Pubkey { bytes: nearly }, b"the message");
    assert_eq!(
        check_signature_instruction(&step, &key(3), b"the message"),
        Err(BridgeError::SignerMismatch)
    );
}

#[test]
fn proof_over_another_message_is_refused() {
    let step = signature_step(&key(3), b"the message");
    for other in [&b"the massage"[..], &b"the message!"[..], &b"the messag"[..], &b""[..]] {
        assert_eq!(
            check_signature_instruction(&step, &key(3), other),
            Err(BridgeError::MessageMismatch)
        );
    }
}

#[test]
fn signer_is_checked_before_the_message() {
    let step = signature_step(&key(4), b"one");
    assert_eq!(
        check_signature_instruction(&step, &key(3), b"other"),
        Err(BridgeError::SignerMismatch)
    );
}

#[test]
fn proof_is_found_before_the_instruction_that_runs() {
    let data = signature_data(&key(3), b"the message");
    let sysvar = sysvar_of(&ed25519_program::ID, &data, 1);
    assert_eq!(
        load_preceding_instruction(&sysvar),
        Some(PrecedingInstruction { program_id: Pubkey { bytes: ED25519_PROGRAM_ID }, data })
    );
    assert_eq!(verify_ed25519_signature(&sysvar, &key(3), b"the message"), Ok(()));
    assert_eq!(
        verify_ed25519_signature(&sysvar, &key(4), b"the message"),
        Err(BridgeError::SignerMismatch)
    );
    assert_eq!(
        verify_ed25519_signature(&sysvar, &key(3), b"another"),
        Err(BridgeError::MessageMismatch)
    );
}

#[test]
fn first_instruction_has_no_proof_before_it() {
    let data = signature_data(&key(3), b"the message");
    let sysvar = sysvar_of(&ed25519_program::ID, &data, 0);
    assert_eq!(load_preceding_instruction(&sysvar), None);
    assert_eq!(
        verify_ed25519_signature(&sysvar, &key(3), b"the message"),
        Err(BridgeError::MissingSignatureStep)
    );
}

#[test]
fn instruction_before_must_be_a_signature_verification() {
    let data = signature_data(&key(3), b"the message");
    let sysvar = sysvar_of(&LedgerKey::new_from_array([5u8; 32]), &data, 1);
    assert_eq!(
        verify_ed25519_signature(&sysvar, &key(3), b"the message"),
        Err(BridgeError::MissingSignatureStep)
    );
}

#[test]
fn only_the_instruction_just_before_counts() {
    let data = signature_data(&key(3), b"the message");
    let sysvar = sysvar_of(&ed25519_program::ID, &data, 2);
    assert_eq!(
        verify_ed25519_signature(&sysvar, &key(3), b"the message"),
        Err(BridgeError::MissingSignatureStep)
    );
}

#[test]
fn unreadable_instructions_hold_no_proof() {
    assert_eq!(load_preceding_instruction(&[]), None);
    assert_eq!(load_preceding_instruction(&[1]), None);
    assert_eq!(load_preceding_instruction(&[1, 0]), None);
    assert_eq!(load_preceding_instruction(&[0, 0, 5, 0]), None);
    assert_eq!(
        verify_ed25519_signature(&[9, 9, 9, 1, 0], &key(3), b"m"),
        Err(BridgeError::MissingSignatureStep)
    );
}
