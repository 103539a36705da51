//! Durable entity records and the small enumerations they carry.
//!
//! Identifiers and payload-like fields (addresses, metadata documents,
//! browser information, URLs) are held as plain `u64` handles: the pipeline
//! never looks inside them, it only compares, copies and merges them.  The
//! caller owns the mapping between handles and the encoded payloads it keeps.

use vstd::prelude::*;
use crate::status::{AttemptStatus, IntentStatus};

verus! {

/// Consistency mode a caller picks for each entity-store operation.
#[derive(Clone, Copy, Debug, PartialEq, Eq, Structural)]
pub enum StorageMode {
    /// Latest-write consistency.
    Strict,
    /// Read-replica-tolerant consistency.
    Eventual,
}

#[derive(Clone, Copy, Debug, PartialEq, Eq, Structural)]
pub enum Currency {
    Usd,
    Eur,
    Gbp,
}

#[derive(Clone, Copy, Debug, PartialEq, Eq, Structural)]
pub enum PaymentMethod {
    Card,
    Wallet,
    BankTransfer,
    BankDebit,
}

#[derive(Clone, Copy, Debug, PartialEq, Eq, Structural)]
pub enum PaymentMethodType {
    Credit,
    Debit,
    Ach,
}

#[derive(Clone, Copy, Debug, PartialEq, Eq, Structural)]
pub enum FutureUsage {
    OnSession,
    OffSession,
}

#[derive(Clone, Copy, Debug, PartialEq, Eq, Structural)]
pub enum CaptureMethod {
    Automatic,
    Manual,
}

#[derive(Clone, Copy, Debug, PartialEq, Eq, Structural)]
pub enum AuthenticationType {
    ThreeDs,
    NoThreeDs,
}

/// Card details as supplied with a confirmation request.
#[derive(Clone, Copy, Debug, PartialEq, Eq, Structural)]
pub struct CardData {
    pub card_number: u64,
    pub card_exp_month: u8,
    pub card_exp_year: u16,
}

/// A valid card carries a non-zero number and a calendar expiry month.
pub open spec fn card_data_valid(c: CardData) -> bool {
    c.card_number != 0 && 1 <= c.card_exp_month <= 12
}

/// Payment-method data supplied with a request or resolved from a token.
#[derive(Clone, Copy, Debug, PartialEq, Eq, Structural)]
pub enum PaymentMethodData {
    Card(CardData),
    Wallet(u64),
    BankTransfer(u64),
    /// Data recovered from a stored payment token.
    Tokenized(u64),
}

/// Well-formedness of supplied payment-method data: card data must be a
/// valid card, other kinds are opaque payloads.
pub open spec fn payment_method_data_valid(d: Option<PaymentMethodData>) -> bool {
    match d {
        Some(PaymentMethodData::Card(c)) => card_data_valid(c),
        _ => true,
    }
}

/// The durable, merchant-scoped record of a payment's intent to be
/// collected.  At most one intent exists per (merchant id, payment id);
/// its active-attempt pointer always references an existing attempt.
#[derive(Clone, Copy, Debug, PartialEq, Eq, Structural)]
pub struct Intent {
    pub payment_id: u64,
    pub merchant_id: u64,
    pub status: IntentStatus,
    pub amount: u64,
    pub currency: Currency,
    pub customer_id: Option<u64>,
    pub shipping_address_id: Option<u64>,
    pub billing_address_id: Option<u64>,
    pub active_attempt_id: u64,
    pub return_url: Option<u64>,
    pub setup_future_usage: Option<FutureUsage>,
    pub metadata: Option<u64>,
    pub order_details: Option<u64>,
    pub connector_metadata: Option<u64>,
    pub feature_metadata: Option<u64>,
    pub allowed_payment_method_types: Option<u64>,
    pub client_secret: Option<u64>,
    pub created_at: u64,
}

/// One concrete attempt to execute an intent against a connector.  The
/// connector-response slot of the attempt is folded into the record as an
/// opaque handle; a new attempt starts with a fresh (empty) slot.
#[derive(Clone, Copy, Debug, PartialEq, Eq, Structural)]
pub struct Attempt {
    pub attempt_id: u64,
    pub payment_id: u64,
    pub merchant_id: u64,
    pub status: AttemptStatus,
    pub amount: u64,
    pub currency: Option<Currency>,
    pub payment_method: Option<PaymentMethod>,
    pub payment_method_type: Option<PaymentMethodType>,
    pub payment_method_data: Option<PaymentMethodData>,
    pub connector: Option<u64>,
    pub connector_response: Option<u64>,
    pub authentication_type: Option<AuthenticationType>,
    pub browser_info: Option<u64>,
    pub payment_token: Option<u64>,
    pub payment_experience: Option<u64>,
    pub capture_method: Option<CaptureMethod>,
    pub business_sub_label: Option<u64>,
    pub mandate_details: Option<u64>,
    pub straight_through_algorithm: Option<u64>,
    pub error_code: Option<u64>,
    pub error_message: Option<u64>,
    pub amount_capturable: Option<u64>,
}

/// A shipping or billing address, resolved by find-or-create against
/// (merchant id, customer id, payload).
#[derive(Clone, Copy, Debug, PartialEq, Eq, Structural)]
pub struct Address {
    pub address_id: u64,
    pub merchant_id: u64,
    pub customer_id: Option<u64>,
    pub payload: u64,
}

/// Merchant-scoped customer identity.
#[derive(Clone, Copy, Debug, PartialEq, Eq, Structural)]
pub struct Customer {
    pub customer_id: u64,
    pub merchant_id: u64,
    pub name: Option<u64>,
    pub email: Option<u64>,
    pub phone: Option<u64>,
}

/// One merchant-connector-credential configuration row, upserted when a
/// request supplies inline credentials.
#[derive(Clone, Copy, Debug, PartialEq, Eq, Structural)]
pub struct ConfigEntry {
    pub merchant_id: u64,
    pub creds_identifier: u64,
    pub value: u64,
}

/// The merchant account under which a confirmation runs.
#[derive(Clone, Copy, Debug, PartialEq, Eq, Structural)]
pub struct MerchantAccount {
    pub merchant_id: u64,
    pub storage_mode: StorageMode,
    pub intent_fulfillment_time: Option<u64>,
}

/// Seconds an intent stays confirmable after creation when the merchant
/// sets no fulfillment time of its own.
pub const DEFAULT_INTENT_FULFILLMENT_TIME: u64 = 900;

} // verus!
