//! Balance snapshots: the node's wallet balances joined with the lightning
//! capacity of its channels.

use vstd::prelude::*;
use crate::liquidity::{ChannelView, total_inbound_sats, total_outbound_sats, MSATS_PER_SAT};

verus! {

/// The wallet balances as the node reports them.
#[derive(Clone, Copy, Debug, PartialEq, Eq)]
pub struct NodeBalances {
    /// The total balance of the on-chain wallet.
    pub total_onchain_balance_sats: u64,
    /// The currently spendable balance of the on-chain wallet.
    pub spendable_onchain_balance_sats: u64,
    /// The share retained as a reserve for spending anchor outputs.
    pub total_anchor_channels_reserve_sats: u64,
    /// The total balance claimable across all lightning channels.
    pub total_lightning_balance_sats: u64,
}

/// The current balances across onchain and lightning wallets
#[derive(Clone, Copy, Debug, PartialEq, Eq)]
pub struct Balances {
    /// How many sats are currently spendable onchain.
    pub spendable_onchain_balance_sats: u64,
    /// The total onchain balance in sats.
    pub total_onchain_balance_sats: u64,
    /// How many sats are held in reserve to pay for fee bumping.
    pub total_anchor_channels_reserve_sats: u64,
    /// How many sats we hold in lightning channels.
    pub total_lightning_balance_sats: u64,
    /// How many sats we can send over lightning.
    pub outbound_capacity_lightning_sats: u64,
    /// How many sats we can receive over lightning.
    pub inbound_capacity_lightning_sats: u64,
}

proof fn lemma_inbound_sats_prefix(channels: Seq<ChannelView>, n: int)
    requires
        0 <= n <= channels.len(),
    ensures
        0 <= total_inbound_sats(channels.take(n)) <= total_inbound_sats(channels),
    decreases channels.len() - n,
{
    if n == channels.len() {
        assert(channels.take(n) =~= channels);
        lemma_inbound_sats_nonnegative(channels);
    } else {
        lemma_inbound_sats_prefix(channels, n + 1);
        assert(channels.take(n + 1).drop_last() =~= channels.take(n));
        lemma_inbound_sats_nonnegative(channels.take(n));
    }
}

proof fn lemma_inbound_sats_nonnegative(channels: Seq<ChannelView>)
    ensures
        0 <= total_inbound_sats(channels),
    decreases channels.len(),
{
    if channels.len() > 0 {
        lemma_inbound_sats_nonnegative(channels.drop_last());
    }
}

proof fn lemma_outbound_sats_prefix(channels: Seq<ChannelView>, n: int)
    requires
        0 <= n <= channels.len(),
    ensures
        0 <= total_outbound_sats(channels.take(n)) <= total_outbound_sats(channels),
    decreases channels.len() - n,
{
    if n == channels.len() {
        assert(channels.take(n) =~= channels);
        lemma_outbound_sats_nonnegative(channels);
    } else {
        lemma_outbound_sats_prefix(channels, n + 1);
        assert(channels.take(n + 1).drop_last() =~= channels.take(n));
        lemma_outbound_sats_nonnegative(channels.take(n));
    }
}

proof fn lemma_outbound_sats_nonnegative(channels: Seq<ChannelView>)
    ensures
        0 <= total_outbound_sats(channels),
    decreases channels.len(),
{
    if channels.len() > 0 {
        lemma_outbound_sats_nonnegative(channels.drop_last());
    }
}

/// The channels' inbound capacity in satoshis, each channel rounded down;
/// `None` if the total does not fit in 64 bits.
pub fn inbound_capacity_sats(channels: &[ChannelView]) -> (total: Option<u64>)
    ensures
        total is Some <==> total_inbound_sats(channels@) <= u64::MAX,
        total matches Some(sats) ==> sats == total_inbound_sats(channels@),
{
    let mut sum: u64 = 0;
    let mut i: usize = 0;
    while i < channels.len()
        invariant
            i <= channels@.len(),
            sum == total_inbound_sats(channels@.take(i as int)),
        decreases channels@.len() - i,
    {
        proof {
            assert(channels@.take(i + 1).drop_last() =~= channels@.take(i as int));
            lemma_inbound_sats_prefix(channels@, i + 1);
        }
        match sum.checked_add(channels[i].inbound_capacity_msat / MSATS_PER_SAT) {
            Some(next) => {
                sum = next;
            },
            None => {
                return None;
            },
        }
        i += 1;
    }
    assert(channels@.take(i as int) =~= channels@);
    Some(sum)
}

/// The channels' outbound capacity in satoshis, each channel rounded down;
/// `None` if the total does not fit in 64 bits.
pub fn outbound_capacity_sats(channels: &[ChannelView]) -> (total: Option<u64>)
    ensures
        total is Some <==> total_outbound_sats(channels@) <= u64::MAX,
        total matches Some(sats) ==> sats == total_outbound_sats(channels@),
{
    let mut sum: u64 = 0;
    let mut i: usize = 0;
    while i < channels.len()
        invariant
            i <= channels@.len(),
            sum == total_outbound_sats(channels@.take(i as int)),
        decreases channels@.len() - i,
    {
        proof {
            assert(channels@.take(i + 1).drop_last() =~= channels@.take(i as int));
            lemma_outbound_sats_prefix(channels@, i + 1);
        }
        match sum.checked_add(channels[i].outbound_capacity_msat / MSATS_PER_SAT) {
            Some(next) => {
                sum = next;
            },
            None => {
                return None;
            },
        }
        i += 1;
    }
    assert(channels@.take(i as int) =~= channels@);
    Some(sum)
}

impl Balances {
    /// The balances that the wallet figures and the channels add up to.
    pub open spec fn of(node: NodeBalances, channels: Seq<ChannelView>) -> Balances {
        Balances {
            spendable_onchain_balance_sats: node.spendable_onchain_balance_sats,
            total_onchain_balance_sats: node.total_onchain_balance_sats,
            total_anchor_channels_reserve_sats: node.total_anchor_channels_reserve_sats,
            total_lightning_balance_sats: node.total_lightning_balance_sats,
            outbound_capacity_lightning_sats: total_outbound_sats(channels) as u64,
            inbound_capacity_lightning_sats: total_inbound_sats(channels) as u64,
        }
    }

    /// Joins the node's wallet balances with the capacity of its channels.
    ///
    /// The wallet figures are carried over; the lightning capacities are the
    /// channels' capacities in whole satoshis, added up. There is no result
    /// where one of the two totals does not fit in 64 bits.
    pub fn aggregate(node: &NodeBalances, channels: &[ChannelView]) -> (balances: Option<Balances>)
        ensures
            balances is Some <==> total_outbound_sats(channels@) <= u64::MAX && total_inbound_sats(
                channels@,
            ) <= u64::MAX,
            balances matches Some(b) ==> b == Balances::of(*node, channels@),
    {
        let outbound = match outbound_capacity_sats(channels) {
            Some(sats) => sats,
            None => {
                return None;
            },
        };
        let inbound = match inbound_capacity_sats(channels) {
            Some(sats) => sats,
            None => {
                return None;
            },
        };
        Some(
            Balances {
                total_onchain_balance_sats: node.total_onchain_balance_sats,
                spendable_onchain_balance_sats: node.spendable_onchain_balance_sats,
                total_anchor_channels_reserve_sats: node.total_anchor_channels_reserve_sats,
                total_lightning_balance_sats: node.total_lightning_balance_sats,
                outbound_capacity_lightning_sats: outbound,
                inbound_capacity_lightning_sats: inbound,
            },
        )
    }
}

} // verus!
