//! Error taxonomy of the confirmation pipeline and of the surrounding
//! administrative flows.

use vstd::prelude::*;

verus! {

/// Errors surfaced verbatim from the entity store.
#[derive(Clone, Copy, Debug, PartialEq, Eq, Structural)]
pub enum StorageError {
    /// The addressed record does not exist.
    ValueNotFound,
    /// A record with the same key already exists.
    DuplicateValue,
}

/// The precise reason a request failed validation.  No I/O has been
/// performed when one of these is returned.
#[derive(Clone, Copy, Debug, PartialEq, Eq, Structural)]
pub enum ValidationFault {
    /// Customer details supplied both inline and by reference.
    ContradictoryCustomerDetails,
    /// The request names a merchant other than the authenticated one.
    MerchantIdMismatch,
    /// A payment method is named without its data, or data without a method.
    MissingPaymentMethodFields,
    /// Mandate data and a mandate id supplied together.
    MalformedMandate,
    /// The supplied card data is not a valid card.
    InvalidCardData,
    /// Neither a payment method, its data, its type, a mandate nor a token
    /// is available.
    PaymentMethodOrTokenMissing,
    /// The stored attempt carries no currency.
    MissingCurrency,
    /// Shipping, billing or future usage given without any customer id.
    MissingCustomerId,
    /// The supplied client secret does not match the intent's.
    ClientSecretInvalid,
    /// The intent's fulfillment window has elapsed.
    ClientSecretExpired,
}

/// Errors of the Confirm operation.
#[derive(Clone, Copy, Debug, PartialEq, Eq, Structural)]
pub enum ConfirmError {
    /// The request is malformed or contradictory; fully recoverable by the
    /// caller correcting its input.
    Validation(ValidationFault),
    /// The intent's status forbids confirmation.
    NotAllowedInCurrentState,
    /// The payment vanished between read and write, or never existed.
    PaymentNotFound,
    /// No usable payment method resolved during enrichment.
    PaymentMethodNotFound,
    /// Join failure, encoding failure, or any unclassified backend error.
    InternalServerError,
    /// A store-layer error surfaced verbatim.
    Storage(StorageError),
}

/// Errors of the user-role administrative flows.
#[derive(Clone, Copy, Debug, PartialEq, Eq, Structural)]
pub enum UserErrors {
    InvalidRoleId,
    InvalidRoleOperation,
    InvalidDeleteOperation,
    InternalServerError,
}

} // verus!
