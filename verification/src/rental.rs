//! The record type, the creation payload, and the store's error type.

use vstd::prelude::*;

verus! {

/// A stored rental record.  `id` and `rental_start_time` are assigned by the
/// store at creation and never change afterwards; `rental_end_time` is absent
/// until an update sets it.
#[derive(Clone, Debug, PartialEq, Eq)]
pub struct Rental {
    pub id: u64,
    pub customer_name: String,
    pub product_model: String,
    pub rental_start_time: u64,
    pub rental_end_time: Option<u64>,
}

/// The mathematical value of a record: its text fields as character sequences.
#[verifier::ext_equal]
pub struct RentalView {
    pub id: u64,
    pub customer_name: Seq<char>,
    pub product_model: Seq<char>,
    pub rental_start_time: u64,
    pub rental_end_time: Option<u64>,
}

impl View for Rental {
    type V = RentalView;

    open spec fn view(&self) -> RentalView {
        RentalView {
            id: self.id,
            customer_name: self.customer_name@,
            product_model: self.product_model@,
            rental_start_time: self.rental_start_time,
            rental_end_time: self.rental_end_time,
        }
    }
}

/// The caller-supplied fields of a record: everything except the identity and
/// the timestamps, which the store assigns itself.
#[derive(Clone, Debug, PartialEq, Eq)]
pub struct RentalPayload {
    pub customer_name: String,
    pub product_model: String,
}

/// The mathematical value of a payload.
#[verifier::ext_equal]
pub struct PayloadView {
    pub customer_name: Seq<char>,
    pub product_model: Seq<char>,
}

impl View for RentalPayload {
    type V = PayloadView;

    open spec fn view(&self) -> PayloadView {
        PayloadView {
            customer_name: self.customer_name@,
            product_model: self.product_model@,
        }
    }
}

/// What an operation can fail with.  `NotFound` is the one recoverable,
/// caller-facing condition; the other three are fatal to the operation that
/// raised them and leave the store unchanged.
#[derive(Debug, PartialEq, Eq)]
pub enum Error {
    /// The requested id is not in the store; the message names the operation
    /// and the id.
    NotFound { msg: String },
    /// No further identifier can be minted.
    CapacityExhausted,
    /// The record's serialized form would exceed the declared maximum size;
    /// the record was not persisted.
    EncodingTooLarge,
    /// Previously stored bytes failed to decode: an internal-consistency
    /// violation, distinct from "not found".
    CorruptedEntry,
}

/// The mathematical value of an `Error`.
#[verifier::ext_equal]
pub enum ErrorView {
    NotFound { msg: Seq<char> },
    CapacityExhausted,
    EncodingTooLarge,
    CorruptedEntry,
}

impl View for Error {
    type V = ErrorView;

    open spec fn view(&self) -> ErrorView {
        match self {
            Error::NotFound { msg } => ErrorView::NotFound { msg: msg@ },
            Error::CapacityExhausted => ErrorView::CapacityExhausted,
            Error::EncodingTooLarge => ErrorView::EncodingTooLarge,
            Error::CorruptedEntry => ErrorView::CorruptedEntry,
        }
    }
}

} // verus!
