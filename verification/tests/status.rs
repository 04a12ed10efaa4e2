use romer::liquidity::ChannelView;
use romer::status::{invoice_paid, is_connected_to, NodeStatus, PaymentStatus, PeerView, Status};

const LSP: &str = "0371d6fd7d75de2d0372d03ea00e8bacdacb50c27d0eaea0a76a0622eff1f5ef2b";
const STRANGER: &str = "027100442c3b79f606f80f322d98d499eefcb060599efc5d4ecb00209c2cb54190";

fn peer(node_id: &str, is_connected: bool) -> PeerView {
    PeerView { node_id: node_id.to_string(), is_connected }
}

fn node() -> NodeStatus {
    NodeStatus {
        node_id: "02aa".to_string(),
        best_block_height: 840_000,
        best_block_hash: [7; 32],
        latest_wallet_sync_timestamp: Some(1),
        latest_onchain_wallet_sync_timestamp: None,
        latest_fee_rate_cache_update_timestamp: Some(3),
        latest_rgs_snapshot_timestamp: Some(4),
    }
}

#[test]
fn only_a_succeeded_payment_is_paid() {
    assert!(invoice_paid(Some(PaymentStatus::Succeeded)));
    assert!(!invoice_paid(Some(PaymentStatus::Pending)));
    assert!(!invoice_paid(Some(PaymentStatus::Failed)));
    assert!(!invoice_paid(None));
}

#[test]
fn connected_means_a_live_connection_to_that_peer() {
    let lsp = LSP.to_string();
    assert!(!is_connected_to(&[], &lsp));
    assert!(!is_connected_to(&[peer(LSP, false)], &lsp));
    assert!(!is_connected_to(&[peer(STRANGER, true)], &lsp));
    assert!(is_connected_to(&[peer(STRANGER, true), peer(LSP, true)], &lsp));
    assert!(is_connected_to(&[peer(LSP, false), peer(LSP, true)], &lsp));
}

#[test]
fn status_joins_node_channels_and_peers() {
    let channels = [
        ChannelView { inbound_capacity_msat: 0, outbound_capacity_msat: 0, is_usable: false },
        ChannelView { inbound_capacity_msat: 0, outbound_capacity_msat: 0, is_usable: true },
    ];
    let peers = [peer(LSP, true)];
    let status = Status::aggregate(node(), &channels, &peers, &LSP.to_string());
    assert_eq!(
        status,
        Status {
            node_id: "02aa".to_string(),
            connected: true,
            usable_channels: true,
            best_block_height: 840_000,
            best_block_hash: [7; 32],
            latest_wallet_sync_timestamp: Some(1),
            latest_onchain_wallet_sync_timestamp: None,
            latest_fee_rate_cache_update_timestamp: Some(3),
            latest_rgs_snapshot_timestamp: Some(4),
        }
    );
}

#[test]
fn status_of_a_lonely_node() {
    let status = Status::aggregate(node(), &[], &[peer(STRANGER, true)], &LSP.to_string());
    assert!(!status.connected);
    assert!(!status.usable_channels);
    assert_eq!(status.best_block_height, 840_000);
}
