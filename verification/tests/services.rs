use romer::error::Error;
use romer::services::{services_for_token, ServiceConfig, SocketAddress};
use romer::token::Network;

#[test]
fn signet_services() {
    assert_eq!(
        ServiceConfig::new(Network::Signet),
        Ok(ServiceConfig {
            esplora_url: "https://staging.e.r.cequals.xyz".to_string(),
            rgs_url: "https://staging.r.r.cequals.xyz".to_string(),
            lsp_node_id: "0371d6fd7d75de2d0372d03ea00e8bacdacb50c27d0eaea0a76a0622eff1f5ef2b"
                .to_string(),
            lsp_ip_port: SocketAddress { addr: [44, 219, 111, 31], port: 39735 },
        })
    );
}

#[test]
fn mainnet_services() {
    assert_eq!(
        ServiceConfig::new(Network::Bitcoin),
        Ok(ServiceConfig {
            esplora_url: "https://e.r.cequals.xyz".to_string(),
            rgs_url: "https://r.r.cequals.xyz".to_string(),
            lsp_node_id: "027100442c3b79f606f80f322d98d499eefcb060599efc5d4ecb00209c2cb54190"
                .to_string(),
            lsp_ip_port: SocketAddress { addr: [3, 226, 165, 222], port: 9735 },
        })
    );
}

#[test]
fn other_networks_have_no_services() {
    assert_eq!(ServiceConfig::new(Network::Testnet), Err(Error::NetworkNotSupported));
    assert_eq!(ServiceConfig::new(Network::Regtest), Err(Error::NetworkNotSupported));
}

#[test]
fn a_token_resolves_to_network_and_services() {
    let (network, services) = services_for_token("Ssometoken").unwrap();
    assert_eq!(network, Network::Signet);
    assert_eq!(Ok(services), ServiceConfig::new(Network::Signet));
    let (network, services) = services_for_token("Msometoken").unwrap();
    assert_eq!(network, Network::Bitcoin);
    assert_eq!(services.esplora_url, "https://e.r.cequals.xyz");
}

#[test]
fn a_token_without_services_is_not_supported() {
    assert_eq!(services_for_token("Tsometoken"), Err(Error::NetworkNotSupported));
    assert_eq!(services_for_token("Rsometoken"), Err(Error::NetworkNotSupported));
}

#[test]
fn a_bad_token_is_invalid_before_anything_else() {
    assert_eq!(services_for_token(""), Err(Error::InvalidAPIToken));
    assert_eq!(services_for_token("Gsometoken"), Err(Error::InvalidAPIToken));
}
