//! The errors a caller can be handed, and how a payment's reported
//! failure maps onto them.

use vstd::prelude::*;
use vstd::std_specs::convert::FromSpecImpl;

verus! {

/// Why the node gave up on an outbound payment.
#[derive(Clone, Copy, Debug, PartialEq, Eq, Structural)]
pub enum PaymentFailureReason {
    /// The intended recipient rejected the payment.
    RecipientRejected,
    /// The sender abandoned the payment.
    UserAbandoned,
    /// All retry attempts were used up.
    RetriesExhausted,
    /// The payment expired while it was being retried.
    PaymentExpired,
    /// No further route could be found.
    RouteNotFound,
    /// Anything the node could not classify.
    UnexpectedError,
}

/// An error that possibly needs to be handled by the user.
#[derive(Clone, Copy, Debug, PartialEq, Eq, Structural)]
pub enum Error {
    /// Invalid API Token provided
    InvalidAPIToken,
    /// Network not supported
    NetworkNotSupported,
    /// Invalid Bolt11 invoice
    InvalidBolt11Invoice,
    /// Invalid bitcoin address
    InvalidBitcoinAddress,
    /// Invalid offer id
    InvalidOfferId,
    /// Invalid payment id
    InvalidPaymentId,
    /// Invalid payment hash
    InvalidPaymentHash,
    /// Invalid payment preimage
    InvalidPaymentPreimage,
    /// Invalid payment secret
    InvalidPaymentSecret,
    /// Failed to build node
    FailedToBuildNode,
    /// Internal LDK Node error
    LDKNodeError,
    /// The intended recipient rejected our payment.
    RecipientRejected,
    /// We exhausted all of our retry attempts while trying to send the payment.
    RetriesExhausted,
    /// The payment expired while retrying.
    PaymentExpired,
    /// We failed to find a route while retrying the payment.
    ///
    /// Note that this generally indicates that we've exhausted the available set of possible
    /// routes - we tried the payment over a few routes but were not able to find any further
    /// candidate routes beyond those.
    RouteNotFound,
    /// Something unexpected happened.
    UnexpectedError,
}

/// The error kind a failure reason is reported as. Every reason keeps its
/// own kind but `UserAbandoned`, which is reported as `UnexpectedError`.
pub open spec fn error_of_reason(reason: PaymentFailureReason) -> Error {
    match reason {
        PaymentFailureReason::RecipientRejected => Error::RecipientRejected,
        PaymentFailureReason::UserAbandoned => Error::UnexpectedError,
        PaymentFailureReason::RetriesExhausted => Error::RetriesExhausted,
        PaymentFailureReason::PaymentExpired => Error::PaymentExpired,
        PaymentFailureReason::RouteNotFound => Error::RouteNotFound,
        PaymentFailureReason::UnexpectedError => Error::UnexpectedError,
    }
}

impl From<PaymentFailureReason> for Error {
    fn from(value: PaymentFailureReason) -> (e: Self) {
        match value {
            PaymentFailureReason::RecipientRejected => Error::RecipientRejected,
            PaymentFailureReason::UserAbandoned => Error::UnexpectedError,
            PaymentFailureReason::RetriesExhausted => Error::RetriesExhausted,
            PaymentFailureReason::PaymentExpired => Error::PaymentExpired,
            PaymentFailureReason::RouteNotFound => Error::RouteNotFound,
            PaymentFailureReason::UnexpectedError => Error::UnexpectedError,
        }
    }
}

impl FromSpecImpl<PaymentFailureReason> for Error {
    open spec fn obeys_from_spec() -> bool {
        true
    }

    open spec fn from_spec(value: PaymentFailureReason) -> Self {
        error_of_reason(value)
    }
}

impl Error {
    /// The text shown to a user for this error.
    pub open spec fn message_text(self) -> Seq<char> {
        match self {
            Error::InvalidAPIToken => "Invalid API token provided."@,
            Error::NetworkNotSupported => "Network not supported."@,
            Error::InvalidBolt11Invoice => "Invalid Bolt11 invoice provided."@,
            Error::InvalidBitcoinAddress => "Invalid bitcoin address provided."@,
            Error::InvalidOfferId => "Invalid offer id."@,
            Error::InvalidPaymentId => "Invalid payment id."@,
            Error::InvalidPaymentHash => "Invalid payment hash provided."@,
            Error::InvalidPaymentPreimage => "Invalid payment preimage provided."@,
            Error::InvalidPaymentSecret => "Invalid payment secret provided."@,
            Error::FailedToBuildNode => "Failed to build node"@,
            Error::LDKNodeError => "Internal LDK Node error."@,
            Error::RecipientRejected => "The intendfed recipient rejected the payment."@,
            Error::RetriesExhausted => "We exhausted all of our retry attempts while trying to send the payment."@,
            Error::PaymentExpired => "The payment expired while retrying."@,
            Error::RouteNotFound => "We failed to find a route while retrying the payment."@,
            Error::UnexpectedError => "Something unexpected happened."@,
        }
    }

    /// Renders the error as text for a user.
    pub fn message(&self) -> (text: String)
        ensures
            text@ == self.message_text(),
    {
        match *self {
            Self::InvalidAPIToken => "Invalid API token provided.".to_owned(),
            Self::NetworkNotSupported => "Network not supported.".to_owned(),
            Self::InvalidBolt11Invoice => "Invalid Bolt11 invoice provided.".to_owned(),
            Self::InvalidBitcoinAddress => "Invalid bitcoin address provided.".to_owned(),
            Self::InvalidOfferId => "Invalid offer id.".to_owned(),
            Self::InvalidPaymentId => "Invalid payment id.".to_owned(),
            Self::InvalidPaymentHash => "Invalid payment hash provided.".to_owned(),
            Self::InvalidPaymentPreimage => "Invalid payment preimage provided.".to_owned(),
            Self::InvalidPaymentSecret => "Invalid payment secret provided.".to_owned(),
            Self::FailedToBuildNode => "Failed to build node".to_owned(),
            Self::LDKNodeError => "Internal LDK Node error.".to_owned(),
            Self::RecipientRejected => "The intendfed recipient rejected the payment.".to_owned(),
            Self::RetriesExhausted => "We exhausted all of our retry attempts while trying to send the payment.".to_owned(),
            Self::PaymentExpired => "The payment expired while retrying.".to_owned(),
            Self::RouteNotFound => "We failed to find a route while retrying the payment.".to_owned(),
            Self::UnexpectedError => "Something unexpected happened.".to_owned(),
        }
    }
}

} // verus!
