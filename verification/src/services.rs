//! The service endpoints that go with each supported network.

use vstd::prelude::*;
use crate::error::Error;
use crate::token::{network_from_token, network_of_token, Network};

verus! {

/// An IPv4 address and TCP port.
#[derive(Clone, Copy, Debug, PartialEq, Eq)]
pub struct SocketAddress {
    /// The four bytes of the address.
    pub addr: [u8; 4],
    /// The TCP port.
    pub port: u16,
}

/// The services a node on one network talks to.
#[derive(Clone, Debug, PartialEq, Eq)]
pub struct ServiceConfig {
    /// Base URL of the Esplora chain-data server.
    pub esplora_url: String,
    /// Base URL of the rapid-gossip-sync server.
    pub rgs_url: String,
    /// Node id of the liquidity provider: its public key in hexadecimal.
    pub lsp_node_id: String,
    /// Where the liquidity provider listens.
    pub lsp_ip_port: SocketAddress,
}

/// Whether services exist for `network`: they do for signet and mainnet.
pub open spec fn is_supported(network: Network) -> bool {
    network == Network::Signet || network == Network::Bitcoin
}

/// The Esplora URL for a supported network.
pub open spec fn esplora_url_of(network: Network) -> Seq<char> {
    if network == Network::Signet {
        "https://staging.e.r.cequals.xyz"@
    } else {
        "https://e.r.cequals.xyz"@
    }
}

/// The rapid-gossip-sync URL for a supported network.
pub open spec fn rgs_url_of(network: Network) -> Seq<char> {
    if network == Network::Signet {
        "https://staging.r.r.cequals.xyz"@
    } else {
        "https://r.r.cequals.xyz"@
    }
}

/// The liquidity provider's node id for a supported network.
pub open spec fn lsp_node_id_of(network: Network) -> Seq<char> {
    if network == Network::Signet {
        "0371d6fd7d75de2d0372d03ea00e8bacdacb50c27d0eaea0a76a0622eff1f5ef2b"@
    } else {
        "027100442c3b79f606f80f322d98d499eefcb060599efc5d4ecb00209c2cb54190"@
    }
}

/// The liquidity provider's address for a supported network.
pub open spec fn lsp_address_of(network: Network) -> (Seq<u8>, u16) {
    if network == Network::Signet {
        (seq![44u8, 219u8, 111u8, 31u8], 39735u16)
    } else {
        (seq![3u8, 226u8, 165u8, 222u8], 9735u16)
    }
}

impl ServiceConfig {
    /// The services for `network`.
    ///
    /// Signet and mainnet have services; every other network is answered
    /// with `NetworkNotSupported`.
    pub fn new(network: Network) -> (config: Result<Self, Error>)
        ensures
            config is Ok <==> is_supported(network),
            config matches Err(e) ==> e == Error::NetworkNotSupported,
            config matches Ok(c) ==> {
                &&& c.esplora_url@ == esplora_url_of(network)
                &&& c.rgs_url@ == rgs_url_of(network)
                &&& c.lsp_node_id@ == lsp_node_id_of(network)
                &&& (c.lsp_ip_port.addr@, c.lsp_ip_port.port) == lsp_address_of(network)
            },
    {
        match network {
            Network::Signet => {
                let addr: [u8; 4] = [44, 219, 111, 31];
                assert(addr@ =~= seq![44u8, 219u8, 111u8, 31u8]);
                Ok(
                    Self {
                        esplora_url: "https://staging.e.r.cequals.xyz".to_owned(),
                        rgs_url: "https://staging.r.r.cequals.xyz".to_owned(),
                        lsp_node_id: "0371d6fd7d75de2d0372d03ea00e8bacdacb50c27d0eaea0a76a0622eff1f5ef2b".to_owned(),
                        lsp_ip_port: SocketAddress { addr, port: 39735 },
                    },
                )
            },
            Network::Bitcoin => {
                let addr: [u8; 4] = [3, 226, 165, 222];
                assert(addr@ =~= seq![3u8, 226u8, 165u8, 222u8]);
                Ok(
                    Self {
                        esplora_url: "https://e.r.cequals.xyz".to_owned(),
                        rgs_url: "https://r.r.cequals.xyz".to_owned(),
                        lsp_node_id: "027100442c3b79f606f80f322d98d499eefcb060599efc5d4ecb00209c2cb54190".to_owned(),
                        lsp_ip_port: SocketAddress { addr, port: 9735 },
                    },
                )
            },
            _ => Err(Error::NetworkNotSupported),
        }
    }
}

/// Resolves an API token to its network and that network's services.
///
/// A token that names no network is an `InvalidAPIToken`, whatever else
/// holds; a token for a network without services is a
/// `NetworkNotSupported`.
pub fn services_for_token(api_token: &str) -> (resolved: Result<(Network, ServiceConfig), Error>)
    ensures
        match network_of_token(api_token@) {
            Err(e) => resolved == Err::<(Network, ServiceConfig), Error>(e),
            Ok(network) => if is_supported(network) {
                &&& resolved is Ok
                &&& resolved.unwrap().0 == network
                &&& resolved.unwrap().1.esplora_url@ == esplora_url_of(network)
                &&& resolved.unwrap().1.rgs_url@ == rgs_url_of(network)
                &&& resolved.unwrap().1.lsp_node_id@ == lsp_node_id_of(network)
                &&& (resolved.unwrap().1.lsp_ip_port.addr@, resolved.unwrap().1.lsp_ip_port.port)
                    == lsp_address_of(network)
            } else {
                resolved == Err::<(Network, ServiceConfig), Error>(Error::NetworkNotSupported)
            },
        },
{
    let network = match network_from_token(api_token) {
        Ok(network) => network,
        Err(e) => {
            return Err(e);
        },
    };
    match ServiceConfig::new(network) {
        Ok(services) => Ok((network, services)),
        Err(e) => Err(e),
    }
}

} // verus!
