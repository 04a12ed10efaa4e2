//! Status snapshots: what the node says of itself, joined with what its
//! channels and peers show; and the status of single payments.

use vstd::prelude::*;
use crate::liquidity::{any_usable, has_usable_channel, ChannelView};

verus! {

/// Where a payment stands.
#[derive(Clone, Copy, Debug, PartialEq, Eq, Structural)]
pub enum PaymentStatus {
    /// The payment is still pending.
    Pending,
    /// The payment succeeded.
    Succeeded,
    /// The payment failed.
    Failed,
}

/// Whether an invoice has been paid, given the status of the payment the
/// node knows for it, if it knows one: paid means known and succeeded.
pub fn invoice_paid(payment: Option<PaymentStatus>) -> (paid: bool)
    ensures
        paid == (payment == Some(PaymentStatus::Succeeded)),
{
    match payment {
        Some(PaymentStatus::Succeeded) => true,
        _ => false,
    }
}

/// What the status rules read of one peer.
#[derive(Clone, Debug, PartialEq, Eq)]
pub struct PeerView {
    /// The peer's node id: its public key in hexadecimal.
    pub node_id: String,
    /// Whether a connection to the peer is currently up.
    pub is_connected: bool,
}

/// The node's own account of its state.
#[derive(Clone, Debug, PartialEq, Eq)]
pub struct NodeStatus {
    /// The node's id: its public key in hexadecimal.
    pub node_id: String,
    /// Height of the best block the lightning wallet is synced to.
    pub best_block_height: u32,
    /// Hash of that block.
    pub best_block_hash: [u8; 32],
    /// When the lightning wallet was last synced.
    pub latest_wallet_sync_timestamp: Option<u64>,
    /// When the onchain wallet was last synced.
    pub latest_onchain_wallet_sync_timestamp: Option<u64>,
    /// When the fee rate cache was last updated.
    pub latest_fee_rate_cache_update_timestamp: Option<u64>,
    /// When the last applied RGS snapshot was generated.
    pub latest_rgs_snapshot_timestamp: Option<u64>,
}

/// The status of your node. Useful for debugging issues.
#[derive(Clone, Debug, PartialEq, Eq)]
pub struct Status {
    /// The lightning node id.
    pub node_id: String,
    /// Have a peer connection with the liquidity provider.
    pub connected: bool,
    /// Have a usable channel.
    pub usable_channels: bool,
    /// Latest synced block height.
    pub best_block_height: u32,
    /// Latest synced block hash.
    pub best_block_hash: [u8; 32],
    /// Timestamp we last synced the lightning wallet.
    pub latest_wallet_sync_timestamp: Option<u64>,
    /// Timestamp we last synced the onchain wallet.
    pub latest_onchain_wallet_sync_timestamp: Option<u64>,
    /// Timestamp we last updated the fee rate cache.
    pub latest_fee_rate_cache_update_timestamp: Option<u64>,
    /// Timestamp we last updated our graph using RGS.
    pub latest_rgs_snapshot_timestamp: Option<u64>,
}

/// Some peer with the id `node_id` is connected.
pub open spec fn peer_connected(peers: Seq<PeerView>, node_id: Seq<char>) -> bool {
    exists|i: int|
        0 <= i < peers.len() && (#[trigger] peers[i]).is_connected && peers[i].node_id@ == node_id
}

/// Whether a connection to the peer `node_id` is up.
pub fn is_connected_to(peers: &[PeerView], node_id: &String) -> (connected: bool)
    ensures
        connected == peer_connected(peers@, node_id@),
{
    let mut i: usize = 0;
    while i < peers.len()
        invariant
            i <= peers@.len(),
            forall|k: int|
                0 <= k < i ==> !((#[trigger] peers@[k]).is_connected && peers@[k].node_id@
                    == node_id@),
        decreases peers@.len() - i,
    {
        if peers[i].is_connected && peers[i].node_id == *node_id {
            return true;
        }
        i += 1;
    }
    false
}

impl Status {
    /// Joins the node's own account with two findings: whether any channel
    /// is usable, and whether the liquidity provider `lsp_node_id` is among
    /// the connected peers. Everything else is carried over.
    pub fn aggregate(
        node: NodeStatus,
        channels: &[ChannelView],
        peers: &[PeerView],
        lsp_node_id: &String,
    ) -> (status: Status)
        ensures
            status.usable_channels == any_usable(channels@),
            status.connected == peer_connected(peers@, lsp_node_id@),
            status.node_id == node.node_id,
            status.best_block_height == node.best_block_height,
            status.best_block_hash == node.best_block_hash,
            status.latest_wallet_sync_timestamp == node.latest_wallet_sync_timestamp,
            status.latest_onchain_wallet_sync_timestamp
                == node.latest_onchain_wallet_sync_timestamp,
            status.latest_fee_rate_cache_update_timestamp
                == node.latest_fee_rate_cache_update_timestamp,
            status.latest_rgs_snapshot_timestamp == node.latest_rgs_snapshot_timestamp,
    {
        let usable_channels = has_usable_channel(channels);
        let connected = is_connected_to(peers, lsp_node_id);
        Status {
            node_id: node.node_id,
            connected,
            usable_channels,
            best_block_height: node.best_block_height,
            best_block_hash: node.best_block_hash,
            latest_wallet_sync_timestamp: node.latest_wallet_sync_timestamp,
            latest_onchain_wallet_sync_timestamp: node.latest_onchain_wallet_sync_timestamp,
            latest_fee_rate_cache_update_timestamp: node.latest_fee_rate_cache_update_timestamp,
            latest_rgs_snapshot_timestamp: node.latest_rgs_snapshot_timestamp,
        }
    }
}

} // verus!
