//! The working record: the in-memory aggregate that flows through the
//! pipeline stages.  It is owned exclusively by the executing invocation
//! and never shared across concurrent requests.

use vstd::prelude::*;
use crate::records::{Address, Attempt, Currency, Intent, PaymentMethodData};
use crate::request::MandateData;

verus! {

/// Resolved shipping and billing addresses.
#[derive(Clone, Copy, Debug, PartialEq, Eq, Structural)]
pub struct PaymentAddress {
    pub shipping: Option<Address>,
    pub billing: Option<Address>,
}

/// What the fraud-prevention subsystem attached to this payment, used to
/// fill the attempt's error fields when it suggests cancellation.
#[derive(Clone, Copy, Debug, PartialEq, Eq, Structural)]
pub struct FraudCheckMessage {
    pub frm_status: u64,
    pub frm_reason: Option<u64>,
}

/// The working record of one confirmation: intent, attempt, resolved
/// addresses, mandate and token data, and payment-method data, accumulated
/// stage by stage.
#[derive(Clone, Copy, Debug, PartialEq, Eq, Structural)]
pub struct PaymentData {
    pub payment_intent: Intent,
    pub payment_attempt: Attempt,
    pub currency: Currency,
    pub amount: u64,
    pub email: Option<u64>,
    pub mandate_id: Option<u64>,
    pub mandate_connector: Option<u64>,
    pub setup_mandate: Option<MandateData>,
    pub recurring_mandate_payment_data: Option<u64>,
    pub token: Option<u64>,
    pub address: PaymentAddress,
    pub confirm: Option<bool>,
    pub payment_method_data: Option<PaymentMethodData>,
    pub card_cvc: Option<u64>,
    pub creds_identifier: Option<u64>,
    pub frm_message: Option<FraudCheckMessage>,
    /// Whether enrichment created a new customer for this payment.
    pub new_customer_created: bool,
}

} // verus!
