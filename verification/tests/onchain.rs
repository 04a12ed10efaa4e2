use romer::error::Error;
use romer::onchain::{address_verdict, check_address};
use romer::token::Network;

const MAINNET_LEGACY: &str = "1QJVDzdqb1VpbDK7uDeyVXy9mR27CJiyhY";
const MAINNET_SEGWIT: &str = "bc1qvzvkjn4q3nszqxrv3nraga2r822xjty3ykvkuw";
const TESTNET_SEGWIT: &str = "tb1qrp33g0q5c5txsp9arysrx4k6zdkfs4nce4xj0gdcccefvpysxf3q0sl5k7";

#[test]
fn an_address_of_the_nodes_network_passes() {
    assert_eq!(check_address(MAINNET_LEGACY, Network::Bitcoin), Ok(()));
    assert_eq!(check_address(MAINNET_SEGWIT, Network::Bitcoin), Ok(()));
    assert_eq!(check_address(TESTNET_SEGWIT, Network::Testnet), Ok(()));
}

#[test]
fn testnet_and_signet_share_their_addresses() {
    assert_eq!(check_address(TESTNET_SEGWIT, Network::Signet), Ok(()));
}

#[test]
fn an_address_of_another_network_is_invalid() {
    assert_eq!(check_address(MAINNET_LEGACY, Network::Signet), Err(Error::InvalidBitcoinAddress));
    assert_eq!(check_address(MAINNET_SEGWIT, Network::Testnet), Err(Error::InvalidBitcoinAddress));
    assert_eq!(check_address(TESTNET_SEGWIT, Network::Bitcoin), Err(Error::InvalidBitcoinAddress));
    assert_eq!(check_address(TESTNET_SEGWIT, Network::Regtest), Err(Error::InvalidBitcoinAddress));
}

#[test]
fn text_that_is_no_address_is_invalid() {
    assert_eq!(check_address("", Network::Bitcoin), Err(Error::InvalidBitcoinAddress));
    assert_eq!(check_address("not-an-address", Network::Signet), Err(Error::InvalidBitcoinAddress));
    assert_eq!(
        check_address("bc1qvzvkjn4q3nszqxrv3nraga2r822xjty3ykvkux", Network::Bitcoin),
        Err(Error::InvalidBitcoinAddress)
    );
}

#[test]
fn the_verdict_follows_the_validity() {
    assert_eq!(address_verdict(true), Ok(()));
    assert_eq!(address_verdict(false), Err(Error::InvalidBitcoinAddress));
}
