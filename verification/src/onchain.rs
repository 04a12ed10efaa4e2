//! On-chain sends: an address is accepted only if it parses and belongs to
//! the network the node works on, and that is settled before the node is
//! asked for anything.

use std::str::FromStr;
use ldk_node::bitcoin::Address;
use vstd::prelude::*;
use crate::error::Error;
use crate::token::Network;

verus! {

/// Whether `text` spells a bitcoin address that is valid for `network`.
pub uninterp spec fn address_valid_for(text: Seq<char>, network: Network) -> bool;

/// Parses `text` with `Address::from_str` and asks the parsed address
/// `is_valid_for_network`.
///
/// Both depend on the text and the network alone; the contract names the
/// answer, which is `false` for text that does not parse.
#[verifier::external_body]
fn address_is_valid_for(text: &str, network: Network) -> (valid: bool)
    ensures
        valid == address_valid_for(text@, network),
{
    let network = match network {
        Network::Bitcoin => ldk_node::bitcoin::Network::Bitcoin,
        Network::Testnet => ldk_node::bitcoin::Network::Testnet,
        Network::Signet => ldk_node::bitcoin::Network::Signet,
        Network::Regtest => ldk_node::bitcoin::Network::Regtest,
    };
    match Address::from_str(text) {
        Ok(address) => address.is_valid_for_network(network),
        Err(_) => false,
    }
}

/// The verdict on an address, given whether it is valid for the network:
/// a valid one passes, any other is an `InvalidBitcoinAddress`.
pub fn address_verdict(valid: bool) -> (verdict: Result<(), Error>)
    ensures
        verdict == (if valid {
            Ok::<(), Error>(())
        } else {
            Err::<(), Error>(Error::InvalidBitcoinAddress)
        }),
{
    if valid {
        Ok(())
    } else {
        Err(Error::InvalidBitcoinAddress)
    }
}

/// Checks the destination of an on-chain send.
///
/// Passes exactly when `address` spells an address that is valid for
/// `network`; malformed text and an address of another network are both
/// answered with `InvalidBitcoinAddress`.
pub fn check_address(address: &str, network: Network) -> (verdict: Result<(), Error>)
    ensures
        verdict == (if address_valid_for(address@, network) {
            Ok::<(), Error>(())
        } else {
            Err::<(), Error>(Error::InvalidBitcoinAddress)
        }),
{
    address_verdict(address_is_valid_for(address, network))
}

} // verus!
