//! Sending a payment: from the invoice text to the registration that the
//! event dispatch will resolve, and from the delivered outcome to the
//! caller's result.
//!
//! The steps, in the order a caller takes them:
//! 1. [`begin_send`] parses the invoice and registers the caller's endpoint
//!    under the invoice's payment hash. Malformed text fails here, before
//!    the registry or the node is touched.
//! 2. The caller submits the invoice to the node and reports with
//!    [`submission_result`] whether the node took it. A refused submission
//!    is terminal: the registration is withdrawn.
//! 3. The caller waits on its endpoint and turns what arrives into its
//!    result with [`send_result`].

use std::str::FromStr;
use ldk_node::lightning_invoice::Bolt11Invoice;
use vstd::prelude::*;
use crate::dispatch::{delivery_of, lemma_event_finds_registration, Delivery, NodeEvent, PaymentOutcome};
use crate::error::{error_of_reason, Error, PaymentFailureReason};
use crate::registry::{PaymentHash, PendingPayments};

verus! {

/// A parsed and signature-checked BOLT11 invoice.
#[verifier::external_type_specification]
#[verifier::external_body]
pub struct ExBolt11Invoice(Bolt11Invoice);

/// The payment hash embedded in the BOLT11 invoice that `text` spells, or
/// `None` where `text` is not a valid invoice.
pub uninterp spec fn invoice_payment_hash(text: Seq<char>) -> Option<Seq<u8>>;

/// Parses `text` with `Bolt11Invoice::from_str` and reads the invoice's
/// payment hash with `Bolt11Invoice::payment_hash`.
///
/// Both are functions of the text alone, so the contract names their
/// result: the invoice comes with its hash where the text parses, and
/// nothing comes where it does not.
#[verifier::external_body]
fn parse_invoice(text: &str) -> (parsed: Option<(Bolt11Invoice, PaymentHash)>)
    ensures
        parsed is Some <==> invoice_payment_hash(text@) is Some,
        parsed matches Some(p) ==> invoice_payment_hash(text@) == Some(p.1@),
{
    match Bolt11Invoice::from_str(text) {
        Ok(invoice) => {
            let hash = PaymentHash(ldk_node::bitcoin::hashes::Hash::to_byte_array(*invoice.payment_hash()));
            Some((invoice, hash))
        },
        Err(_) => None,
    }
}

/// Registers a parsed invoice for sending.
///
/// With an invoice and its hash, `endpoint` is registered under the hash
/// and both are handed back for submission. Without one the invoice text
/// was malformed: the registry is left untouched and the error says so.
pub fn admit_send<I, E>(
    pending: &mut PendingPayments<E>,
    parsed: Option<(I, PaymentHash)>,
    endpoint: E,
) -> (admitted: Result<(I, PaymentHash), Error>)
    requires
        old(pending).wf(),
    ensures
        final(pending).wf(),
        match parsed {
            Some(p) => admitted == Ok::<(I, PaymentHash), Error>(p) && final(pending)@ == old(
                pending,
            )@.insert(p.1@, endpoint),
            None => admitted == Err::<(I, PaymentHash), Error>(Error::InvalidBolt11Invoice)
                && final(pending)@ == old(pending)@,
        },
{
    match parsed {
        Some((invoice, hash)) => {
            let _ = pending.register(hash, endpoint);
            Ok((invoice, hash))
        },
        None => Err(Error::InvalidBolt11Invoice),
    }
}

/// Starts a send: parses `invoice` and registers `endpoint` under the
/// payment hash it embeds.
///
/// On success the parsed invoice and its hash are returned, and the
/// registry holds `endpoint` under that hash; this happens before the
/// invoice is submitted, so the node cannot finish the payment before the
/// registration exists. Text that is no valid invoice yields
/// `InvalidBolt11Invoice` and leaves the registry as it was.
pub fn begin_send<E>(pending: &mut PendingPayments<E>, invoice: &str, endpoint: E) -> (started:
    Result<(Bolt11Invoice, PaymentHash), Error>)
    requires
        old(pending).wf(),
    ensures
        final(pending).wf(),
        match invoice_payment_hash(invoice@) {
            Some(hash) => started is Ok && started.unwrap().1@ == hash && final(pending)@ == old(
                pending,
            )@.insert(hash, endpoint),
            None => started == Err::<(Bolt11Invoice, PaymentHash), Error>(
                Error::InvalidBolt11Invoice,
            ) && final(pending)@ == old(pending)@,
        },
{
    let parsed = parse_invoice(invoice);
    admit_send(pending, parsed, endpoint)
}

/// Accounts for the node's answer to a submission.
///
/// An accepted submission changes nothing: the caller goes on to wait. A
/// refused one ends the send with `LDKNodeError` and withdraws the
/// registration of `hash`, so that no entry outlives its caller.
pub fn submission_result<E>(pending: &mut PendingPayments<E>, hash: &PaymentHash, accepted: bool)
    -> (result: Result<(), Error>)
    requires
        old(pending).wf(),
    ensures
        final(pending).wf(),
        accepted ==> result == Ok::<(), Error>(()) && final(pending)@ == old(pending)@,
        !accepted ==> result == Err::<(), Error>(Error::LDKNodeError) && final(pending)@ == old(
            pending,
        )@.remove(hash@),
{
    if accepted {
        Ok(())
    } else {
        let _ = pending.take(hash);
        Err(Error::LDKNodeError)
    }
}

/// What a caller is told for a delivered outcome: the fee paid, or the
/// error kind of the failure reason.
pub open spec fn result_of_outcome(outcome: PaymentOutcome) -> Result<u64, Error> {
    match outcome {
        Ok(fee_paid_msat) => Ok(fee_paid_msat),
        Err(reason) => Err(error_of_reason(reason)),
    }
}

/// Turns the outcome delivered to a waiting caller into the result of its
/// send: the fee paid in millisatoshis, or the typed error for the failure.
pub fn send_result(outcome: PaymentOutcome) -> (result: Result<u64, Error>)
    ensures
        result == result_of_outcome(outcome),
{
    match outcome {
        Ok(fee_paid_msat) => Ok(fee_paid_msat),
        Err(reason) => Err(Error::from(reason)),
    }
}

/// A send is resolved under the hash its invoice embeds.
///
/// After `begin_send` has registered `endpoint` for the invoice `text`, a
/// terminal event that carries the invoice's payment hash is dispatched to
/// exactly that endpoint, and the caller's result is the one the event's
/// outcome stands for.
pub proof fn lemma_send_round_trip<E>(
    pending: Map<Seq<u8>, E>,
    text: Seq<char>,
    endpoint: E,
    event: NodeEvent,
)
    requires
        invoice_payment_hash(text) is Some,
        event.terminal_hash() == invoice_payment_hash(text),
    ensures
        delivery_of(pending.insert(invoice_payment_hash(text).unwrap(), endpoint), event) == Some(
            Delivery { endpoint, outcome: event.outcome().unwrap() },
        ),
        event matches NodeEvent::PaymentSuccessful { fee_paid_msat, .. } ==> result_of_outcome(
            event.outcome().unwrap(),
        ) == Ok::<u64, Error>(fee_paid_msat),
        event matches NodeEvent::PaymentFailed { reason, .. } ==> result_of_outcome(
            event.outcome().unwrap(),
        ) == Err::<u64, Error>(error_of_reason(reason)),
{
    lemma_event_finds_registration(pending, invoice_payment_hash(text).unwrap(), endpoint, event);
}

} // verus!
