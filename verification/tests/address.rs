use bech32::{Bech32, Bech32m, Hrp};
use mirage_bridge::errors::BridgeError;
use mirage_bridge::utils::bech32::{check_address_prefix, validate_mirage_address, MIRAGE_PREFIX};

fn address(prefix: &str) -> String {
    bech32::encode::<Bech32>(Hrp::parse(prefix).unwrap(), &[7u8; 20]).unwrap()
}

#[test]
fn prefix_is_mirage() {
    assert_eq!(MIRAGE_PREFIX, "mirage");
}

#[test]
fn mirage_address_passes() {
    let address = address("mirage");
    assert!(address.starts_with("mirage1"));
    assert_eq!(validate_mirage_address(&address), Ok(()));
}

#[test]
fn mirage_address_with_the_other_checksum_passes() {
    let address = bech32::encode::<Bech32m>(Hrp::parse("mirage").unwrap(), &[1u8, 2, 3]).unwrap();
    assert_eq!(validate_mirage_address(&address), Ok(()));
}

#[test]
fn upper_case_address_passes() {
    let address = address("mirage").to_uppercase();
    assert!(address.starts_with("MIRAGE1"));
    assert_eq!(validate_mirage_address(&address), Ok(()));
}

#[test]
fn address_of_another_chain_is_refused() {
    for prefix in ["cosmos", "mirag", "miragee", "miragevaloper", "bc"] {
        assert_eq!(
            validate_mirage_address(&address(prefix)),
            Err(BridgeError::InvalidMirageRecipient)
        );
    }
}

#[test]
fn text_that_is_no_bech32_is_refused() {
    let mut broken = address("mirage");
    let last = broken.pop().unwrap();
    broken.push(if last == 'q' { 'p' } else { 'q' });
    for text in ["", "mirage", "mirage1", "hello world", broken.as_str()] {
        assert_eq!(validate_mirage_address(text), Err(BridgeError::InvalidMirageRecipient));
    }
}

#[test]
fn mixed_case_address_is_refused() {
    let address = address("mirage").replacen("mirage", "Mirage", 1);
    assert_eq!(validate_mirage_address(&address), Err(BridgeError::InvalidMirageRecipient));
}

#[test]
fn only_the_mirage_prefix_passes() {
    assert_eq!(check_address_prefix(&Some(String::from("mirage"))), Ok(()));
    assert_eq!(
        check_address_prefix(&Some(String::from("MIRAGE"))),
        Err(BridgeError::InvalidMirageRecipient)
    );
    assert_eq!(
        check_address_prefix(&Some(String::from(""))),
        Err(BridgeError::InvalidMirageRecipient)
    );
    assert_eq!(check_address_prefix(&None), Err(BridgeError::InvalidMirageRecipient));
}
