use romer::error::{Error, PaymentFailureReason};

#[test]
fn every_reason_has_its_error() {
    assert_eq!(Error::from(PaymentFailureReason::RecipientRejected), Error::RecipientRejected);
    assert_eq!(Error::from(PaymentFailureReason::RetriesExhausted), Error::RetriesExhausted);
    assert_eq!(Error::from(PaymentFailureReason::PaymentExpired), Error::PaymentExpired);
    assert_eq!(Error::from(PaymentFailureReason::RouteNotFound), Error::RouteNotFound);
    assert_eq!(Error::from(PaymentFailureReason::UnexpectedError), Error::UnexpectedError);
}

#[test]
fn an_abandoned_payment_is_reported_as_unexpected() {
    assert_eq!(Error::from(PaymentFailureReason::UserAbandoned), Error::UnexpectedError);
}

#[test]
fn messages_of_input_errors() {
    assert_eq!(Error::InvalidAPIToken.message(), "Invalid API token provided.");
    assert_eq!(Error::InvalidBolt11Invoice.message(), "Invalid Bolt11 invoice provided.");
    assert_eq!(Error::InvalidBitcoinAddress.message(), "Invalid bitcoin address provided.");
    assert_eq!(Error::InvalidOfferId.message(), "Invalid offer id.");
    assert_eq!(Error::InvalidPaymentId.message(), "Invalid payment id.");
    assert_eq!(Error::InvalidPaymentHash.message(), "Invalid payment hash provided.");
    assert_eq!(Error::InvalidPaymentPreimage.message(), "Invalid payment preimage provided.");
    assert_eq!(Error::InvalidPaymentSecret.message(), "Invalid payment secret provided.");
}

#[test]
fn messages_of_node_errors() {
    assert_eq!(Error::NetworkNotSupported.message(), "Network not supported.");
    assert_eq!(Error::FailedToBuildNode.message(), "Failed to build node");
    assert_eq!(Error::LDKNodeError.message(), "Internal LDK Node error.");
}

#[test]
fn messages_of_payment_failures() {
    assert_eq!(
        Error::RecipientRejected.message(),
        "The intendfed recipient rejected the payment."
    );
    assert_eq!(
        Error::RetriesExhausted.message(),
        "We exhausted all of our retry attempts while trying to send the payment."
    );
    assert_eq!(Error::PaymentExpired.message(), "The payment expired while retrying.");
    assert_eq!(
        Error::RouteNotFound.message(),
        "We failed to find a route while retrying the payment."
    );
    assert_eq!(Error::UnexpectedError.message(), "Something unexpected happened.");
}
