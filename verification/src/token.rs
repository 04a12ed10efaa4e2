//! Which network an API token is for. The token's first character decides.

use vstd::prelude::*;
use crate::error::Error;

verus! {

/// The bitcoin network a node works on.
#[derive(Clone, Copy, Debug, PartialEq, Eq, Structural)]
pub enum Network {
    /// Mainnet.
    Bitcoin,
    /// The public test network.
    Testnet,
    /// The signet test network.
    Signet,
    /// A local regression-test network.
    Regtest,
}

/// The network that a token starting with `first` is for.
pub open spec fn network_of_prefix(first: char) -> Option<Network> {
    if first == 'R' {
        Some(Network::Regtest)
    } else if first == 'T' {
        Some(Network::Testnet)
    } else if first == 'S' {
        Some(Network::Signet)
    } else if first == 'M' {
        Some(Network::Bitcoin)
    } else {
        None
    }
}

/// The network a token is for, or `InvalidAPIToken` for a token that is
/// empty or starts with anything but `R`, `T`, `S` or `M`.
pub open spec fn network_of_token(token: Seq<char>) -> Result<Network, Error> {
    if token.len() == 0 {
        Err(Error::InvalidAPIToken)
    } else {
        match network_of_prefix(token[0]) {
            Some(network) => Ok(network),
            None => Err(Error::InvalidAPIToken),
        }
    }
}

/// Resolves an API token to the network it is for.
pub fn network_from_token(token: &str) -> (network: Result<Network, Error>)
    ensures
        network == network_of_token(token@),
{
    if token.is_empty() {
        return Err(Error::InvalidAPIToken);
    }
    let first = token.get_char(0);
    if first == 'R' {
        Ok(Network::Regtest)
    } else if first == 'T' {
        Ok(Network::Testnet)
    } else if first == 'S' {
        Ok(Network::Signet)
    } else if first == 'M' {
        Ok(Network::Bitcoin)
    } else {
        Err(Error::InvalidAPIToken)
    }
}

} // verus!
