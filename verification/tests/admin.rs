use bech32::{Bech32, Hrp};
use mirage_bridge::errors::BridgeError;
use mirage_bridge::events::{AuthorityTransferred, BridgePaused, BridgeUnpaused, BurnInitiated};
use mirage_bridge::instructions::burn::{burn, BurnParams};
use mirage_bridge::instructions::initialize::{initialize, InitializeParams};
use mirage_bridge::instructions::pause::pause;
use mirage_bridge::instructions::transfer_authority::{transfer_authority, TransferAuthorityParams};
use mirage_bridge::instructions::unpause::unpause;
use mirage_bridge::pubkey::Pubkey;
use mirage_bridge::state::bridge_config::BridgeConfig;
use mirage_bridge::state::bridge_state::{Admission, BridgeState};
use mirage_bridge::state::burn_record::BurnRecord;
use mirage_bridge::state::validator_registry::{ValidatorInfo, ValidatorRegistry};

fn key(byte: u8) -> Pubkey {
    Pubkey::new_from_array([byte; 32])
}

fn blank_config() -> BridgeConfig {
    BridgeConfig {
        authority: key(0),
        mint: key(0),
        mirage_chain_id: String::new(),
        attestation_threshold: 0,
        total_minted: 0,
        total_burned: 0,
        burn_nonce: 0,
        paused: false,
        bump: 0,
    }
}

fn blank_state() -> BridgeState {
    BridgeState {
        bump: 0,
        authority: key(0),
        orchestrator: key(0),
        last_sequence: 0,
        replay_bitmap: [0u128; 8],
    }
}

fn blank_registry() -> ValidatorRegistry {
    ValidatorRegistry { validators: vec![], total_voting_power: 0, bump: 0 }
}

fn blank_record() -> BurnRecord {
    BurnRecord {
        burn_id: 0,
        solana_sender: key(0),
        mirage_recipient: String::new(),
        amount: 0,
        timestamp: 0,
        bump: 0,
    }
}

fn settings(chain: &str, threshold: u64) -> InitializeParams {
    InitializeParams {
        mirage_chain_id: String::from(chain),
        attestation_threshold: threshold,
        token_name: String::from("Mirage"),
        token_symbol: String::from("MRG"),
        token_uri: String::from("https://example.org/token.json"),
    }
}

fn running_config() -> BridgeConfig {
    BridgeConfig {
        authority: key(200),
        mint: key(201),
        mirage_chain_id: String::from("mirage-1"),
        attestation_threshold: 6000,
        total_minted: 3,
        total_burned: 100,
        burn_nonce: 7,
        paused: false,
        bump: 255,
    }
}

fn recipient() -> String {
    bech32::encode::<Bech32>(Hrp::parse("mirage").unwrap(), &[7u8; 20]).unwrap()
}

#[test]
fn initialize_sets_the_bridge_up() {
    let mut config = blank_config();
    let mut registry = ValidatorRegistry {
        validators: vec![ValidatorInfo {
            orchestrator_pubkey: key(1),
            mirage_validator: String::from("old"),
            voting_power: 4,
        }],
        total_voting_power: 4,
        bump: 0,
    };
    let mut state = BridgeState {
        bump: 0,
        authority: key(0),
        orchestrator: key(5),
        last_sequence: 99,
        replay_bitmap: [u128::MAX; 8],
    };
    let done = initialize(
        &key(200),
        &key(201),
        &mut config,
        &mut registry,
        &mut state,
        &settings("mirage-1", 6000),
        255,
        254,
        253,
    );
    assert_eq!(done, Ok(()));
    assert_eq!(
        config,
        BridgeConfig {
            authority: key(200),
            mint: key(201),
            mirage_chain_id: String::from("mirage-1"),
            attestation_threshold: 6000,
            total_minted: 0,
            total_burned: 0,
            burn_nonce: 0,
            paused: false,
            bump: 255,
        }
    );
    assert_eq!(registry, ValidatorRegistry { validators: vec![], total_voting_power: 0, bump: 254 });
    assert_eq!(
        state,
        BridgeState {
            bump: 253,
            authority: key(200),
            orchestrator: key(5),
            last_sequence: 0,
            replay_bitmap: [0u128; 8],
        }
    );
    assert_eq!(state.check_sequence(0), Admission::Allowed);
}

#[test]
fn initialize_refuses_an_empty_chain_id() {
    let mut config = blank_config();
    let mut registry = blank_registry();
    let mut state = blank_state();
    let done = initialize(
        &key(200),
        &key(201),
        &mut config,
        &mut registry,
        &mut state,
        &settings("", 0),
        1,
        2,
        3,
    );
    assert_eq!(done, Err(BridgeError::InvalidChainId));
    assert_eq!(config, blank_config());
    assert_eq!(registry, blank_registry());
    assert_eq!(state, blank_state());
}

#[test]
fn initialize_refuses_a_threshold_out_of_range() {
    for threshold in [0u64, 10001, u64::MAX] {
        let mut config = blank_config();
        let mut registry = blank_registry();
        let mut state = blank_state();
        let done = initialize(
            &key(200),
            &key(201),
            &mut config,
            &mut registry,
            &mut state,
            &settings("mirage-1", threshold),
            1,
            2,
            3,
        );
        assert_eq!(done, Err(BridgeError::InvalidThreshold));
        assert_eq!(config, blank_config());
        assert_eq!(state, blank_state());
    }
}

#[test]
fn initialize_takes_the_ends_of_the_range() {
    for threshold in [1u64, 10000] {
        let mut config = blank_config();
        let mut registry = blank_registry();
        let mut state = blank_state();
        let done = initialize(
            &key(200),
            &key(201),
            &mut config,
            &mut registry,
            &mut state,
            &settings("m", threshold),
            1,
            2,
            3,
        );
        assert_eq!(done, Ok(()));
        assert_eq!(config.attestation_threshold, threshold);
    }
}

#[test]
fn burn_books_the_burn() {
    let mut config = running_config();
    let mut record = blank_record();
    let params = BurnParams { mirage_recipient: recipient(), amount: 25 };
    let burned = burn(&key(9), &mut config, &mut record, &params, 44, 1_700_000_000);
    assert_eq!(
        burned,
        Ok(BurnInitiated {
            burn_id: 7,
            solana_sender: key(9),
            mirage_recipient: recipient(),
            amount: 25,
            timestamp: 1_700_000_000,
        })
    );
    assert_eq!(
        config,
        BridgeConfig { burn_nonce: 8, total_burned: 125, ..running_config() }
    );
    assert_eq!(
        record,
        BurnRecord {
            burn_id: 7,
            solana_sender: key(9),
            mirage_recipient: recipient(),
            amount: 25,
            timestamp: 1_700_000_000,
            bump: 44,
        }
    );
}

#[test]
fn burns_get_consecutive_identifiers() {
    let mut config = running_config();
    let params = BurnParams { mirage_recipient: recipient(), amount: 1 };
    for expected in 7..10u64 {
        let mut record = blank_record();
        let burned = burn(&key(9), &mut config, &mut record, &params, 0, 0).unwrap();
        assert_eq!(burned.burn_id, expected);
        assert_eq!(record.burn_id, expected);
    }
    assert_eq!(config.burn_nonce, 10);
    assert_eq!(config.total_burned, 103);
}

#[test]
fn burn_is_refused_while_the_bridge_is_paused() {
    let mut config = BridgeConfig { paused: true, ..running_config() };
    let mut record = blank_record();
    let params = BurnParams { mirage_recipient: String::from("nonsense"), amount: 0 };
    assert_eq!(
        burn(&key(9), &mut config, &mut record, &params, 0, 0),
        Err(BridgeError::BridgePaused)
    );
    assert_eq!(config, BridgeConfig { paused: true, ..running_config() });
    assert_eq!(record, blank_record());
}

#[test]
fn burn_of_nothing_is_refused() {
    let mut config = running_config();
    let mut record = blank_record();
    let params = BurnParams { mirage_recipient: String::from("nonsense"), amount: 0 };
    assert_eq!(
        burn(&key(9), &mut config, &mut record, &params, 0, 0),
        Err(BridgeError::InvalidAmount)
    );
    assert_eq!(config, running_config());
}

#[test]
fn burn_for_a_bad_recipient_is_refused() {
    let other = bech32::encode::<Bech32>(Hrp::parse("cosmos").unwrap(), &[7u8; 20]).unwrap();
    for address in [String::from("nonsense"), String::new(), other] {
        let mut config = running_config();
        let mut record = blank_record();
        let params = BurnParams { mirage_recipient: address, amount: 5 };
        assert_eq!(
            burn(&key(9), &mut config, &mut record, &params, 0, 0),
            Err(BridgeError::InvalidMirageRecipient)
        );
        assert_eq!(config, running_config());
        assert_eq!(record, blank_record());
    }
}

#[test]
fn burn_counter_at_its_end_is_refused() {
    let mut config = BridgeConfig { burn_nonce: u64::MAX, ..running_config() };
    let mut record = blank_record();
    let params = BurnParams { mirage_recipient: recipient(), amount: 5 };
    assert_eq!(
        burn(&key(9), &mut config, &mut record, &params, 0, 0),
        Err(BridgeError::NonceOverflow)
    );
    assert_eq!(config, BridgeConfig { burn_nonce: u64::MAX, ..running_config() });
    assert_eq!(record, blank_record());
}

#[test]
fn total_burned_that_overflows_is_refused() {
    let mut config = BridgeConfig { total_burned: u64::MAX - 4, ..running_config() };
    let mut record = blank_record();
    let params = BurnParams { mirage_recipient: recipient(), amount: 5 };
    assert_eq!(
        burn(&key(9), &mut config, &mut record, &params, 0, 0),
        Err(BridgeError::AmountOverflow)
    );
    assert_eq!(config, BridgeConfig { total_burned: u64::MAX - 4, ..running_config() });
    let params = BurnParams { mirage_recipient: recipient(), amount: 4 };
    assert!(burn(&key(9), &mut config, &mut record, &params, 0, 0).is_ok());
    assert_eq!(config.total_burned, u64::MAX);
}

#[test]
fn authority_pauses_and_unpauses() {
    let mut config = running_config();
    assert_eq!(
        pause(&key(200), &mut config, 11),
        Ok(BridgePaused { authority: key(200), timestamp: 11 })
    );
    assert_eq!(config, BridgeConfig { paused: true, ..running_config() });
    assert_eq!(
        pause(&key(200), &mut config, 12),
        Ok(BridgePaused { authority: key(200), timestamp: 12 })
    );
    assert!(config.paused);
    assert_eq!(
        unpause(&key(200), &mut config, 13),
        Ok(BridgeUnpaused { authority: key(200), timestamp: 13 })
    );
    assert_eq!(config, running_config());
}

#[test]
fn strangers_neither_pause_nor_unpause() {
    let mut config = running_config();
    assert_eq!(pause(&key(1), &mut config, 11), Err(BridgeError::Unauthorized));
    assert_eq!(config, running_config());
    config.paused = true;
    assert_eq!(unpause(&key(1), &mut config, 11), Err(BridgeError::Unauthorized));
    assert!(config.paused);
}

#[test]
fn authority_is_handed_on() {
    let mut config = running_config();
    let mut state = BridgeState { authority: key(200), last_sequence: 9, ..blank_state() };
    let transferred = transfer_authority(
        &key(200),
        &mut config,
        &mut state,
        TransferAuthorityParams { new_authority: key(77) },
        21,
    );
    assert_eq!(
        transferred,
        Ok(AuthorityTransferred { old_authority: key(200), new_authority: key(77), timestamp: 21 })
    );
    assert_eq!(config, BridgeConfig { authority: key(77), ..running_config() });
    assert_eq!(state, BridgeState { authority: key(77), last_sequence: 9, ..blank_state() });
    assert_eq!(pause(&key(200), &mut config, 1), Err(BridgeError::Unauthorized));
    assert!(pause(&key(77), &mut config, 1).is_ok());
}

#[test]
fn authority_is_not_handed_to_itself() {
    let mut config = running_config();
    let mut state = BridgeState { authority: key(200), ..blank_state() };
    let transferred = transfer_authority(
        &key(200),
        &mut config,
        &mut state,
        TransferAuthorityParams { new_authority: key(200) },
        21,
    );
    assert_eq!(transferred, Err(BridgeError::InvalidAuthority));
    assert_eq!(config, running_config());
    assert_eq!(state, BridgeState { authority: key(200), ..blank_state() });
}

#[test]
fn strangers_do_not_hand_the_authority_on() {
    let mut config = running_config();
    let mut state = BridgeState { authority: key(200), ..blank_state() };
    let transferred = transfer_authority(
        &key(1),
        &mut config,
        &mut state,
        TransferAuthorityParams { new_authority: key(1) },
        21,
    );
    assert_eq!(transferred, Err(BridgeError::Unauthorized));
    let mut split = BridgeState { authority: key(3), ..blank_state() };
    let transferred = transfer_authority(
        &key(200),
        &mut config,
        &mut split,
        TransferAuthorityParams { new_authority: key(77) },
        21,
    );
    assert_eq!(transferred, Err(BridgeError::Unauthorized));
    assert_eq!(config, running_config());
    assert_eq!(split, BridgeState { authority: key(3), ..blank_state() });
}
