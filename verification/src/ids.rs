//! The 32-byte identifiers of the payment protocol, read from the
//! hexadecimal text in which they cross a language boundary.

use std::str::FromStr;
use ldk_node::bitcoin::hashes::sha256::Hash as Sha256;
use vstd::prelude::*;
use vstd::string::*;
use crate::error::Error;
use crate::hex::{hex_decode, is_hex, to_vec};
use crate::registry::PaymentHash;

verus! {

/// Number of bytes in an identifier.
pub const ID_LEN: usize = 32;

/// The identifiers that are spelled as plain hexadecimal.
#[derive(Clone, Copy, Debug, PartialEq, Eq, Structural)]
pub enum IdKind {
    /// The id of an offer.
    OfferId,
    /// The local id of a payment.
    PaymentId,
    /// The preimage of a payment hash.
    PaymentPreimage,
    /// The secret of a payment.
    PaymentSecret,
}

impl IdKind {
    /// The error that reports malformed text for this kind of identifier.
    pub open spec fn invalid(self) -> Error {
        match self {
            IdKind::OfferId => Error::InvalidOfferId,
            IdKind::PaymentId => Error::InvalidPaymentId,
            IdKind::PaymentPreimage => Error::InvalidPaymentPreimage,
            IdKind::PaymentSecret => Error::InvalidPaymentSecret,
        }
    }

    /// The error that reports malformed text for this kind of identifier.
    pub fn invalid_error(self) -> (e: Error)
        ensures
            e == self.invalid(),
    {
        match self {
            IdKind::OfferId => Error::InvalidOfferId,
            IdKind::PaymentId => Error::InvalidPaymentId,
            IdKind::PaymentPreimage => Error::InvalidPaymentPreimage,
            IdKind::PaymentSecret => Error::InvalidPaymentSecret,
        }
    }
}

/// The bytes as an identifier, if there are exactly 32 of them.
pub fn to_id(bytes: &Vec<u8>) -> (id: Option<[u8; 32]>)
    ensures
        id is Some <==> bytes@.len() == ID_LEN,
        id matches Some(a) ==> a@ == bytes@,
{
    if bytes.len() != ID_LEN {
        return None;
    }
    let mut id = [0u8; 32];
    let mut i: usize = 0;
    while i < ID_LEN
        invariant
            i <= ID_LEN,
            bytes@.len() == ID_LEN,
            id@.len() == ID_LEN,
            forall|k: int| 0 <= k < i ==> id@[k] == bytes@[k],
        decreases ID_LEN - i,
    {
        id[i] = bytes[i];
        i += 1;
    }
    assert(id@ =~= bytes@);
    Some(id)
}

/// The identifier that hexadecimal text spells: the text decodes, and to
/// exactly 32 bytes.
pub open spec fn id_of_hex(text: Seq<u8>) -> Option<Seq<u8>> {
    if is_hex(text) && hex_decode(text).len() == ID_LEN {
        Some(hex_decode(text))
    } else {
        None
    }
}

/// Reads an identifier of the given kind from hexadecimal text.
///
/// Text that is not hexadecimal, or that does not decode to exactly 32
/// bytes, is answered with the error of that kind.
pub fn id_from_hex(kind: IdKind, val: &str) -> (id: Result<[u8; 32], Error>)
    ensures
        match id_of_hex(val.spec_bytes()) {
            Some(bytes) => id is Ok && id.unwrap()@ == bytes,
            None => id == Err::<[u8; 32], Error>(kind.invalid()),
        },
{
    if let Some(bytes_vec) = to_vec(val) {
        if let Some(bytes) = to_id(&bytes_vec) {
            return Ok(bytes);
        }
    }
    Err(kind.invalid_error())
}

/// The hash that text spells in the strict form of a SHA-256 digest:
/// exactly 64 hexadecimal digits.
pub open spec fn digest_of_hex(text: Seq<u8>) -> Option<Seq<u8>> {
    if text.len() == 2 * ID_LEN && is_hex(text) {
        Some(hex_decode(text))
    } else {
        None
    }
}

/// `sha256::Hash::from_str` accepts exactly the texts of 64 hexadecimal
/// digits, upper or lower case, and yields the 32 bytes they spell in the
/// order written.
#[verifier::external_body]
fn digest_from_hex(text: &str) -> (digest: Option<[u8; 32]>)
    ensures
        digest is Some <==> digest_of_hex(text.spec_bytes()) is Some,
        digest matches Some(d) ==> digest_of_hex(text.spec_bytes()) == Some(d@),
{
    match Sha256::from_str(text) {
        Ok(hash) => Some(ldk_node::bitcoin::hashes::Hash::to_byte_array(hash)),
        Err(_) => None,
    }
}

/// Reads a payment hash from hexadecimal text.
///
/// Only the strict form is a payment hash: exactly 64 hexadecimal digits.
/// Anything else is answered with `InvalidPaymentHash`.
pub fn payment_hash_from_hex(val: &str) -> (hash: Result<PaymentHash, Error>)
    ensures
        match digest_of_hex(val.spec_bytes()) {
            Some(bytes) => hash is Ok && hash.unwrap()@ == bytes,
            None => hash == Err::<PaymentHash, Error>(Error::InvalidPaymentHash),
        },
{
    match digest_from_hex(val) {
        Some(bytes) => Ok(PaymentHash(bytes)),
        None => Err(Error::InvalidPaymentHash),
    }
}

} // verus!
