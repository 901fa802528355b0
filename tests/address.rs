use vmback::{Address, AddressError, NetworkError, SuiNetwork, validate_sui_id};

fn hex_address(digit: &str, count: usize) -> String {
    format!("0x{}", digit.repeat(count))
}

#[test]
fn address_with_64_hex_digits_is_accepted() {
    let s = hex_address("a", 64);
    let a = Address::new(&s).unwrap();
    assert_eq!(a.as_str(), s);
}

#[test]
fn address_with_63_digits_is_rejected() {
    let s = hex_address("a", 63);
    assert_eq!(Address::new(&s).unwrap_err(), AddressError::Length);
}

#[test]
fn address_with_wrong_prefix_is_rejected() {
    let s = format!("1x{}", "a".repeat(64));
    assert_eq!(Address::new(&s).unwrap_err(), AddressError::Prefix);
}

#[test]
fn address_with_non_hex_digits_is_rejected() {
    let s = hex_address("g", 64);
    assert_eq!(Address::new(&s).unwrap_err(), AddressError::NotHex);
}

#[test]
fn address_keeps_its_case() {
    let s = format!("0x{}{}", "AbCdEf".repeat(10), "0F9a");
    let a = Address::from_str(&s).unwrap();
    assert_eq!(a.as_str(), s);
}

#[test]
fn address_validation_checks_in_order() {
    assert_eq!(validate_sui_id(""), Err(AddressError::Length));
    assert_eq!(validate_sui_id(&format!("0X{}", "0".repeat(64))), Err(AddressError::Prefix));
    assert_eq!(validate_sui_id(&format!("0x{}z", "0".repeat(63))), Err(AddressError::NotHex));
    assert_eq!(validate_sui_id(&hex_address("7", 64)), Ok(()));
    assert_eq!(AddressError::Length.message(), "Address must has length 66 chars");
}

#[test]
fn network_tokens_parse() {
    assert_eq!(SuiNetwork::from_str("mainnet"), Ok(SuiNetwork::Mainnet));
    assert_eq!(SuiNetwork::from_str("testnet"), Ok(SuiNetwork::Testnet));
    assert_eq!(SuiNetwork::from_str("devnet"), Ok(SuiNetwork::Devnet));
}

#[test]
fn other_network_tokens_fail() {
    for s in ["", "Mainnet", "localnet", "mainnet ", "dev"] {
        assert_eq!(SuiNetwork::from_str(s), Err(NetworkError::InvalidNetwork));
    }
    assert_eq!(NetworkError::InvalidNetwork.message(), "Invalid sui network");
}

#[test]
fn network_token_round_trip() {
    for n in [SuiNetwork::Mainnet, SuiNetwork::Testnet, SuiNetwork::Devnet] {
        assert_eq!(SuiNetwork::from_str(n.as_str()), Ok(n));
    }
}
