//! The event dispatch step: what one node event does to the registry of
//! pending payments, and which outcome it hands to which waiting caller.
//!
//! The loop around this step belongs to the caller: it pulls the next event
//! from the node, calls [`dispatch`] under the registry's lock, sends the
//! returned outcome through the returned endpoint (ignoring a receiver that
//! has gone away), and then acknowledges the event, whatever it was.

use vstd::prelude::*;
use crate::error::PaymentFailureReason;
use crate::registry::{PaymentHash, PendingPayments};

verus! {

/// How a payment ended: the fee paid in millisatoshis, or why it failed.
pub type PaymentOutcome = Result<u64, PaymentFailureReason>;

/// An event pulled from the node, reduced to what dispatching reads.
#[derive(Clone, Copy, Debug, PartialEq, Eq)]
pub enum NodeEvent {
    /// A sent payment was successful.
    PaymentSuccessful {
        /// The hash of the payment.
        payment_hash: PaymentHash,
        /// The total fee spent at intermediate hops, in millisatoshis.
        fee_paid_msat: u64,
    },
    /// A sent payment has failed.
    PaymentFailed {
        /// The hash of the payment.
        payment_hash: PaymentHash,
        /// The reason why the payment failed.
        reason: PaymentFailureReason,
    },
    /// Any other event: acknowledged and otherwise left alone.
    Other,
}

/// An outcome on its way to the caller that waits for it.
#[derive(Debug, PartialEq, Eq)]
pub struct Delivery<E> {
    /// The endpoint that the waiting caller registered.
    pub endpoint: E,
    /// What the caller is told.
    pub outcome: PaymentOutcome,
}

impl NodeEvent {
    /// The payment this event ends, if it is a terminal event.
    pub open spec fn terminal_hash(self) -> Option<Seq<u8>> {
        match self {
            NodeEvent::PaymentSuccessful { payment_hash, .. } => Some(payment_hash@),
            NodeEvent::PaymentFailed { payment_hash, .. } => Some(payment_hash@),
            NodeEvent::Other => None,
        }
    }

    /// The outcome this event carries, if it is a terminal event.
    pub open spec fn outcome(self) -> Option<PaymentOutcome> {
        match self {
            NodeEvent::PaymentSuccessful { fee_paid_msat, .. } => Some(Ok(fee_paid_msat)),
            NodeEvent::PaymentFailed { reason, .. } => Some(Err(reason)),
            NodeEvent::Other => None,
        }
    }
}

/// The registry after `event` has been dispatched: a terminal event removes
/// the entry of its hash, every other event leaves the registry as it was.
pub open spec fn pending_after<E>(pending: Map<Seq<u8>, E>, event: NodeEvent) -> Map<
    Seq<u8>,
    E,
> {
    match event.terminal_hash() {
        Some(hash) => pending.remove(hash),
        None => pending,
    }
}

/// What dispatching `event` delivers: the event's outcome to the endpoint
/// registered for its hash, or nothing if the event is not terminal or no
/// one is waiting for that hash.
pub open spec fn delivery_of<E>(pending: Map<Seq<u8>, E>, event: NodeEvent) -> Option<
    Delivery<E>,
> {
    match event.terminal_hash() {
        Some(hash) => if pending.contains_key(hash) {
            Some(Delivery { endpoint: pending[hash], outcome: event.outcome().unwrap() })
        } else {
            None
        },
        None => None,
    }
}

/// Dispatches one node event against the registry.
///
/// A payment-success or payment-failure event takes the entry of its hash
/// out of the registry and returns it with the outcome to deliver. If no
/// entry matches, or the event is of another kind, nothing is delivered and
/// the registry is unchanged. The caller acknowledges the event in every
/// case.
pub fn dispatch<E>(pending: &mut PendingPayments<E>, event: &NodeEvent) -> (delivery: Option<
    Delivery<E>,
>)
    requires
        old(pending).wf(),
    ensures
        final(pending).wf(),
        final(pending)@ == pending_after(old(pending)@, *event),
        delivery == delivery_of(old(pending)@, *event),
{
    match event {
        NodeEvent::PaymentSuccessful { payment_hash, fee_paid_msat } => {
            match pending.take(payment_hash) {
                Some(endpoint) => Some(Delivery { endpoint, outcome: Ok(*fee_paid_msat) }),
                None => None,
            }
        },
        NodeEvent::PaymentFailed { payment_hash, reason } => {
            match pending.take(payment_hash) {
                Some(endpoint) => Some(Delivery { endpoint, outcome: Err(*reason) }),
                None => None,
            }
        },
        NodeEvent::Other => None,
    }
}

/// The first outcome that a run of events reports for `hash`, if the run
/// holds a terminal event for it.
pub open spec fn first_outcome(events: Seq<NodeEvent>, hash: Seq<u8>) -> Option<PaymentOutcome>
    decreases events.len(),
{
    if events.len() == 0 {
        None
    } else if events[0].terminal_hash() == Some(hash) {
        events[0].outcome()
    } else {
        first_outcome(events.drop_first(), hash)
    }
}

/// Everything that dispatching a run of events, one after the other,
/// delivers for `hash`, in order.
pub open spec fn deliveries_for<E>(
    pending: Map<Seq<u8>, E>,
    events: Seq<NodeEvent>,
    hash: Seq<u8>,
) -> Seq<Delivery<E>>
    decreases events.len(),
{
    if events.len() == 0 {
        Seq::empty()
    } else {
        let rest = deliveries_for(pending_after(pending, events[0]), events.drop_first(), hash);
        if events[0].terminal_hash() == Some(hash) && delivery_of(pending, events[0]) is Some {
            seq![delivery_of(pending, events[0]).unwrap()] + rest
        } else {
            rest
        }
    }
}

/// A registered payment is resolved exactly once.
///
/// Whatever events follow, and however often the node repeats itself, the
/// endpoint registered for `hash` is handed the outcome of the first
/// terminal event for that hash and nothing after it. Where no terminal
/// event for the hash arrives, or no one is registered for it, nothing is
/// delivered for it at all.
pub proof fn lemma_resolved_exactly_once<E>(
    pending: Map<Seq<u8>, E>,
    events: Seq<NodeEvent>,
    hash: Seq<u8>,
)
    ensures
        deliveries_for(pending, events, hash) == (if pending.contains_key(hash) && first_outcome(
            events,
            hash,
        ) is Some {
            seq![Delivery { endpoint: pending[hash], outcome: first_outcome(events, hash).unwrap() }]
        } else {
            Seq::<Delivery<E>>::empty()
        }),
        deliveries_for(pending, events, hash).len() <= 1,
    decreases events.len(),
{
    if events.len() > 0 {
        let after = pending_after(pending, events[0]);
        let rest = events.drop_first();
        lemma_resolved_exactly_once(after, rest, hash);
        if events[0].terminal_hash() == Some(hash) {
            assert(!after.contains_key(hash));
            assert(deliveries_for(after, rest, hash) == Seq::<Delivery<E>>::empty());
            if pending.contains_key(hash) {
                let only = delivery_of(pending, events[0]).unwrap();
                assert(seq![only] + Seq::<Delivery<E>>::empty() =~= seq![only]);
            }
        } else {
            assert(after.contains_key(hash) == pending.contains_key(hash));
            if pending.contains_key(hash) {
                assert(after[hash] == pending[hash]);
            }
        }
    }
}

/// An event resolves the registration made under its hash: dispatched
/// against a registry in which `endpoint` was just registered for the
/// event's hash, a terminal event delivers its outcome to that endpoint and
/// leaves the hash unregistered.
pub proof fn lemma_event_finds_registration<E>(
    pending: Map<Seq<u8>, E>,
    hash: Seq<u8>,
    endpoint: E,
    event: NodeEvent,
)
    requires
        event.terminal_hash() == Some(hash),
    ensures
        delivery_of(pending.insert(hash, endpoint), event) == Some(
            Delivery { endpoint, outcome: event.outcome().unwrap() },
        ),
        !pending_after(pending.insert(hash, endpoint), event).contains_key(hash),
        pending_after(pending.insert(hash, endpoint), event) == pending.remove(hash),
{
    assert(pending.insert(hash, endpoint).remove(hash) =~= pending.remove(hash));
}

} // verus!
