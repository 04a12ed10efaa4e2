use romer::error::Error;
use romer::token::{network_from_token, Network};

#[test]
fn empty_token_is_invalid() {
    assert_eq!(network_from_token(""), Err(Error::InvalidAPIToken));
}

#[test]
fn regtest_token() {
    assert_eq!(network_from_token("Rsometoken"), Ok(Network::Regtest));
}

#[test]
fn testnet_token() {
    assert_eq!(network_from_token("Tsometoken"), Ok(Network::Testnet));
}

#[test]
fn signet_token() {
    assert_eq!(network_from_token("Ssometoken"), Ok(Network::Signet));
}

#[test]
fn mainnet_token() {
    assert_eq!(network_from_token("Msometoken"), Ok(Network::Bitcoin));
}

#[test]
fn invalid_token() {
    assert_eq!(network_from_token("Gsometoken"), Err(Error::InvalidAPIToken));
}

#[test]
fn token_prefix_is_case_sensitive() {
    assert_eq!(network_from_token("ssometoken"), Err(Error::InvalidAPIToken));
    assert_eq!(network_from_token("m"), Err(Error::InvalidAPIToken));
}

#[test]
fn token_of_one_character() {
    assert_eq!(network_from_token("S"), Ok(Network::Signet));
    assert_eq!(network_from_token("M"), Ok(Network::Bitcoin));
}

#[test]
fn token_starting_with_a_wide_character() {
    assert_eq!(network_from_token("\u{00e9}S"), Err(Error::InvalidAPIToken));
    assert_eq!(network_from_token("S\u{00e9}"), Ok(Network::Signet));
}
