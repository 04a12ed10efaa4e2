use romer::dispatch::{dispatch, Delivery, NodeEvent};
use romer::error::{Error, PaymentFailureReason};
use romer::registry::{PaymentHash, PendingPayments};
use romer::send::send_result;

fn hash(tag: u8) -> PaymentHash {
    PaymentHash([tag; 32])
}

#[test]
fn a_success_event_resolves_the_send_with_the_fee() {
    let mut pending = PendingPayments::new();
    pending.register(hash(0xaa), "caller");
    let event = NodeEvent::PaymentSuccessful { payment_hash: hash(0xaa), fee_paid_msat: 1500 };
    let delivery = dispatch(&mut pending, &event);
    assert_eq!(delivery, Some(Delivery { endpoint: "caller", outcome: Ok(1500) }));
    assert_eq!(send_result(delivery.unwrap().outcome), Ok(1500));
    assert!(pending.is_empty());
}

#[test]
fn a_failure_event_resolves_the_send_with_the_error() {
    let mut pending = PendingPayments::new();
    pending.register(hash(0xaa), "caller");
    let event = NodeEvent::PaymentFailed {
        payment_hash: hash(0xaa),
        reason: PaymentFailureReason::RouteNotFound,
    };
    let delivery = dispatch(&mut pending, &event);
    assert_eq!(
        delivery,
        Some(Delivery { endpoint: "caller", outcome: Err(PaymentFailureReason::RouteNotFound) })
    );
    assert_eq!(send_result(delivery.unwrap().outcome), Err(Error::RouteNotFound));
    assert!(pending.is_empty());
}

#[test]
fn an_event_for_an_unknown_hash_delivers_nothing() {
    let mut pending = PendingPayments::new();
    pending.register(hash(1), 1);
    let event = NodeEvent::PaymentSuccessful { payment_hash: hash(2), fee_paid_msat: 5 };
    assert_eq!(dispatch(&mut pending, &event), None);
    assert_eq!(pending.len(), 1);
    assert!(pending.contains(&hash(1)));
}

#[test]
fn other_events_leave_the_registry_alone() {
    let mut pending = PendingPayments::new();
    pending.register(hash(1), 1);
    assert_eq!(dispatch(&mut pending, &NodeEvent::Other), None);
    assert_eq!(pending.len(), 1);
}

#[test]
fn a_repeated_event_is_delivered_once() {
    let mut pending = PendingPayments::new();
    pending.register(hash(1), "one");
    pending.register(hash(2), "two");
    let events = [
        NodeEvent::Other,
        NodeEvent::PaymentFailed { payment_hash: hash(3), reason: PaymentFailureReason::PaymentExpired },
        NodeEvent::PaymentSuccessful { payment_hash: hash(1), fee_paid_msat: 10 },
        NodeEvent::PaymentSuccessful { payment_hash: hash(1), fee_paid_msat: 10 },
        NodeEvent::PaymentFailed { payment_hash: hash(1), reason: PaymentFailureReason::RetriesExhausted },
        NodeEvent::PaymentFailed { payment_hash: hash(2), reason: PaymentFailureReason::UserAbandoned },
    ];
    let mut delivered = Vec::new();
    for event in events.iter() {
        if let Some(delivery) = dispatch(&mut pending, event) {
            delivered.push(delivery);
        }
    }
    assert_eq!(
        delivered,
        vec![
            Delivery { endpoint: "one", outcome: Ok(10) },
            Delivery { endpoint: "two", outcome: Err(PaymentFailureReason::UserAbandoned) },
        ]
    );
    assert!(pending.is_empty());
}

#[test]
fn every_failure_reason_reaches_the_caller_as_its_error() {
    let cases = [
        (PaymentFailureReason::RecipientRejected, Error::RecipientRejected),
        (PaymentFailureReason::UserAbandoned, Error::UnexpectedError),
        (PaymentFailureReason::RetriesExhausted, Error::RetriesExhausted),
        (PaymentFailureReason::PaymentExpired, Error::PaymentExpired),
        (PaymentFailureReason::RouteNotFound, Error::RouteNotFound),
        (PaymentFailureReason::UnexpectedError, Error::UnexpectedError),
    ];
    for (reason, error) in cases {
        let mut pending = PendingPayments::new();
        pending.register(hash(9), ());
        let event = NodeEvent::PaymentFailed { payment_hash: hash(9), reason };
        let delivery = dispatch(&mut pending, &event).unwrap();
        assert_eq!(send_result(delivery.outcome), Err(error));
    }
}

#[test]
fn a_zero_fee_is_a_success() {
    assert_eq!(send_result(Ok(0)), Ok(0));
    assert_eq!(send_result(Ok(u64::MAX)), Ok(u64::MAX));
}
