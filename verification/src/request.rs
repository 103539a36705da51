//! The confirmation request as the client supplies it, and the result of
//! the validation stage.

use vstd::prelude::*;
use crate::records::{
    CaptureMethod, FutureUsage, PaymentMethod, PaymentMethodData, PaymentMethodType, StorageMode,
};

verus! {

/// What the caller asks the router to do when a confirmation has to be
/// retried.
#[derive(Clone, Copy, Debug, PartialEq, Eq, Structural)]
pub enum RetryAction {
    /// Re-queue the payment for a fresh confirmation.
    Requeue,
    /// The caller explicitly asks for a new attempt.
    ManualRetry,
}

/// The kind of mandate transaction a request implies.
#[derive(Clone, Copy, Debug, PartialEq, Eq, Structural)]
pub enum MandateTransactionType {
    NewMandateTransaction,
    RecurringMandateTransaction,
}

/// Mandate details supplied inline with a request.
#[derive(Clone, Copy, Debug, PartialEq, Eq, Structural)]
pub struct MandateData {
    pub mandate_type: Option<u64>,
    pub customer_acceptance: Option<u64>,
}

/// Inline customer details, either as one object or as flat fields.
#[derive(Clone, Copy, Debug, PartialEq, Eq, Structural)]
pub struct CustomerDetails {
    pub customer_id: Option<u64>,
    pub name: Option<u64>,
    pub email: Option<u64>,
    pub phone: Option<u64>,
}

/// Inline merchant-connector credentials.
#[derive(Clone, Copy, Debug, PartialEq, Eq, Structural)]
pub struct MerchantConnectorDetails {
    pub creds_identifier: u64,
    pub encoded_data: u64,
}

/// A payment confirmation request.  Optional fields that the request
/// supplies win over stored values; omitted fields preserve them.
#[derive(Clone, Copy, Debug, PartialEq, Eq, Structural)]
pub struct PaymentsRequest {
    pub payment_id: Option<u64>,
    pub merchant_id: Option<u64>,
    pub customer: Option<CustomerDetails>,
    pub customer_id: Option<u64>,
    pub name: Option<u64>,
    pub email: Option<u64>,
    pub phone: Option<u64>,
    pub payment_method: Option<PaymentMethod>,
    pub payment_method_data: Option<PaymentMethodData>,
    pub payment_method_type: Option<PaymentMethodType>,
    pub payment_token: Option<u64>,
    pub shipping: Option<u64>,
    pub billing: Option<u64>,
    pub confirm: Option<bool>,
    pub client_secret: Option<u64>,
    pub return_url: Option<u64>,
    pub setup_future_usage: Option<FutureUsage>,
    pub capture_method: Option<CaptureMethod>,
    pub payment_experience: Option<u64>,
    pub business_sub_label: Option<u64>,
    pub browser_info: Option<u64>,
    pub metadata: Option<u64>,
    pub order_details: Option<u64>,
    pub connector_metadata: Option<u64>,
    pub feature_metadata: Option<u64>,
    pub allowed_payment_method_types: Option<u64>,
    pub mandate_id: Option<u64>,
    pub mandate_data: Option<MandateData>,
    pub off_session: Option<bool>,
    pub retry_action: Option<RetryAction>,
    pub merchant_connector_details: Option<MerchantConnectorDetails>,
    pub routing: Option<u64>,
    pub card_cvc: Option<u64>,
}

/// What the validation stage hands to the rest of the pipeline.
#[derive(Clone, Copy, Debug, PartialEq, Eq, Structural)]
pub struct ValidateResult {
    pub merchant_id: u64,
    pub payment_id: u64,
    pub mandate_type: Option<MandateTransactionType>,
    pub storage_mode: StorageMode,
    pub requeue: bool,
}

/// Merge policy used throughout the pipeline: a value the request supplies
/// wins, an omitted one preserves what is stored.
pub open spec fn spec_merge<T>(supplied: Option<T>, stored: Option<T>) -> Option<T> {
    if supplied is Some {
        supplied
    } else {
        stored
    }
}

/// Exec mirror of [`spec_merge`].
pub fn merge<T: Copy>(supplied: Option<T>, stored: Option<T>) -> (r: Option<T>)
    ensures
        r == spec_merge(supplied, stored),
{
    match supplied {
        Some(v) => Some(v),
        None => stored,
    }
}

/// Merge policy, supplied side: if the request supplies a field, the merged
/// value is exactly the request's value.
pub proof fn lemma_merge_request_wins<T>(supplied: Option<T>, stored: Option<T>)
    requires
        supplied is Some,
    ensures
        spec_merge(supplied, stored) == supplied,
{
}

/// Merge policy, omitted side: if the request omits a field, the merged
/// value is exactly the stored value.
pub proof fn lemma_merge_preserves_stored<T>(supplied: Option<T>, stored: Option<T>)
    requires
        supplied is None,
    ensures
        spec_merge(supplied, stored) == stored,
{
}

} // verus!
