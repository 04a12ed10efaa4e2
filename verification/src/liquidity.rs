//! Channel liquidity, and the choice it settles at receive time: a plain
//! invoice where the channels can already take the payment, an invoice over
//! a just-in-time channel where they cannot.
//!
//! The comparison is strict and has no margin: an amount equal to the
//! inbound capacity goes over a just-in-time channel.

use vstd::prelude::*;

verus! {

/// Millisatoshis in one satoshi.
pub const MSATS_PER_SAT: u64 = 1000;

/// How long an issued invoice stays payable, in seconds.
pub const DEFAULT_INVOICE_EXPIRY_SECS: u32 = 3600;

/// What the liquidity rules read of one channel.
#[derive(Clone, Copy, Debug, PartialEq, Eq)]
pub struct ChannelView {
    /// What the channel can currently receive, in millisatoshis.
    pub inbound_capacity_msat: u64,
    /// What the channel can currently send, in millisatoshis.
    pub outbound_capacity_msat: u64,
    /// Whether the channel is ready and its peer connected.
    pub is_usable: bool,
}

/// The kind of invoice to ask the node for.
#[derive(Clone, Copy, Debug, PartialEq, Eq, Structural)]
pub enum InvoiceKind {
    /// A standard invoice, paid over the channels that exist.
    Direct,
    /// An invoice for which the liquidity provider opens a channel when it
    /// is paid.
    JitChannel,
}

/// An invoice request, ready to be handed to the node.
#[derive(Clone, Copy, Debug, PartialEq, Eq)]
pub struct InvoiceRequest {
    /// Which kind of invoice to issue.
    pub kind: InvoiceKind,
    /// The amount to receive, in millisatoshis.
    pub amount_msat: u64,
    /// How long the invoice stays payable, in seconds.
    pub expiry_secs: u32,
    /// The most the liquidity provider may charge for opening a channel;
    /// `None` leaves the choice of offer to the node.
    pub max_total_lsp_fee_limit_msat: Option<u64>,
}

/// The inbound capacity of all `channels` together, in millisatoshis.
pub open spec fn total_inbound_msat(channels: Seq<ChannelView>) -> int
    decreases channels.len(),
{
    if channels.len() == 0 {
        0
    } else {
        total_inbound_msat(channels.drop_last()) + channels.last().inbound_capacity_msat
    }
}

/// The inbound capacity of all `channels` together, each channel counted
/// in whole satoshis.
pub open spec fn total_inbound_sats(channels: Seq<ChannelView>) -> int
    decreases channels.len(),
{
    if channels.len() == 0 {
        0
    } else {
        total_inbound_sats(channels.drop_last()) + channels.last().inbound_capacity_msat
            / MSATS_PER_SAT
    }
}

/// The outbound capacity of all `channels` together, each channel counted
/// in whole satoshis.
pub open spec fn total_outbound_sats(channels: Seq<ChannelView>) -> int
    decreases channels.len(),
{
    if channels.len() == 0 {
        0
    } else {
        total_outbound_sats(channels.drop_last()) + channels.last().outbound_capacity_msat
            / MSATS_PER_SAT
    }
}

/// The kind of invoice that the liquidity rule picks for an amount.
pub open spec fn invoice_kind_for(inbound_msat: int, amount_msat: int) -> InvoiceKind {
    if inbound_msat > amount_msat {
        InvoiceKind::Direct
    } else {
        InvoiceKind::JitChannel
    }
}

/// The inbound capacity of a prefix never exceeds that of the whole.
proof fn lemma_inbound_prefix(channels: Seq<ChannelView>, n: int)
    requires
        0 <= n <= channels.len(),
    ensures
        0 <= total_inbound_msat(channels.take(n)) <= total_inbound_msat(channels),
    decreases channels.len() - n,
{
    if n == channels.len() {
        assert(channels.take(n) =~= channels);
        lemma_inbound_nonnegative(channels);
    } else {
        lemma_inbound_prefix(channels, n + 1);
        assert(channels.take(n + 1).drop_last() =~= channels.take(n));
        lemma_inbound_nonnegative(channels.take(n));
    }
}

proof fn lemma_inbound_nonnegative(channels: Seq<ChannelView>)
    ensures
        0 <= total_inbound_msat(channels),
    decreases channels.len(),
{
    if channels.len() > 0 {
        lemma_inbound_nonnegative(channels.drop_last());
    }
}

/// Whether the channels' inbound capacity strictly exceeds `amount_msat`.
///
/// The capacities are compared as mathematical integers: a total beyond
/// `u64::MAX` exceeds every amount.
pub fn inbound_exceeds(channels: &[ChannelView], amount_msat: u64) -> (exceeds: bool)
    ensures
        exceeds == (total_inbound_msat(channels@) > amount_msat),
{
    let mut sum: u64 = 0;
    let mut i: usize = 0;
    while i < channels.len()
        invariant
            i <= channels@.len(),
            sum == total_inbound_msat(channels@.take(i as int)),
            sum <= amount_msat,
        decreases channels@.len() - i,
    {
        let capacity = channels[i].inbound_capacity_msat;
        proof {
            assert(channels@.take(i + 1).drop_last() =~= channels@.take(i as int));
            lemma_inbound_prefix(channels@, i + 1);
        }
        if capacity > amount_msat - sum {
            return true;
        }
        sum += capacity;
        i += 1;
    }
    assert(channels@.take(i as int) =~= channels@);
    false
}

/// Plans the invoice for receiving `amount_sats` satoshis, given the
/// channels as the node lists them now.
///
/// The amount is converted to millisatoshis. The invoice is a direct one
/// where the channels' inbound capacity strictly exceeds it, and one over a
/// just-in-time channel otherwise, both with the default expiry and without
/// a fee limit. There is no plan for an amount whose millisatoshi value does
/// not fit in 64 bits.
pub fn plan_receive(amount_sats: u64, channels: &[ChannelView]) -> (plan: Option<InvoiceRequest>)
    ensures
        plan is Some <==> amount_sats * MSATS_PER_SAT <= u64::MAX,
        plan matches Some(request) ==> {
            &&& request.amount_msat == amount_sats * MSATS_PER_SAT
            &&& request.kind == invoice_kind_for(
                total_inbound_msat(channels@),
                amount_sats * MSATS_PER_SAT,
            )
            &&& request.expiry_secs == DEFAULT_INVOICE_EXPIRY_SECS
            &&& request.max_total_lsp_fee_limit_msat == None::<u64>
        },
{
    match amount_sats.checked_mul(MSATS_PER_SAT) {
        Some(amount_msat) => {
            let kind = if inbound_exceeds(channels, amount_msat) {
                InvoiceKind::Direct
            } else {
                InvoiceKind::JitChannel
            };
            Some(
                InvoiceRequest {
                    kind,
                    amount_msat,
                    expiry_secs: DEFAULT_INVOICE_EXPIRY_SECS,
                    max_total_lsp_fee_limit_msat: None,
                },
            )
        },
        None => None,
    }
}

/// Some channel is usable.
pub open spec fn any_usable(channels: Seq<ChannelView>) -> bool {
    exists|i: int| 0 <= i < channels.len() && (#[trigger] channels[i]).is_usable
}

/// Whether at least one channel is usable.
pub fn has_usable_channel(channels: &[ChannelView]) -> (usable: bool)
    ensures
        usable == any_usable(channels@),
{
    let mut i: usize = 0;
    while i < channels.len()
        invariant
            i <= channels@.len(),
            forall|k: int| 0 <= k < i ==> !(#[trigger] channels@[k]).is_usable,
        decreases channels@.len() - i,
    {
        if channels[i].is_usable {
            return true;
        }
        i += 1;
    }
    false
}

} // verus!
