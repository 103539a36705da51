//! The validation stage: pure precondition checks on the raw confirmation
//! request, performed before any state is touched, plus the request-level
//! checks the fetch stage runs once the intent is in hand.

use vstd::prelude::*;
use crate::errors::{ConfirmError, ValidationFault};
use crate::records::{
    payment_method_data_valid, Intent, MerchantAccount, PaymentMethod, PaymentMethodData,
    PaymentMethodType, DEFAULT_INTENT_FULFILLMENT_TIME,
};
use crate::request::{
    CustomerDetails, MandateTransactionType, PaymentsRequest, RetryAction, ValidateResult,
    spec_merge,
};

verus! {

/// Customer details are contradictory when they come both as one inline
/// object and as flat fields.
pub open spec fn spec_customer_details_contradictory(r: PaymentsRequest) -> bool {
    r.customer is Some && (r.customer_id is Some || r.name is Some || r.email is Some
        || r.phone is Some)
}

/// A request may restate the merchant it is for; naming any other merchant
/// than the authenticated account is a mismatch.
pub open spec fn spec_merchant_id_mismatch(r: PaymentsRequest, account_merchant_id: u64) -> bool {
    match r.merchant_id {
        Some(m) => m != account_merchant_id,
        None => false,
    }
}

/// A payment method must come with its data and vice versa.
pub open spec fn spec_pm_fields_inconsistent(r: PaymentsRequest) -> bool {
    (r.payment_method is Some && r.payment_method_data is None) || (r.payment_method is None
        && r.payment_method_data is Some)
}

/// Inline mandate data and a stored-mandate reference exclude each other.
pub open spec fn spec_mandate_malformed(r: PaymentsRequest) -> bool {
    r.mandate_data is Some && r.mandate_id is Some
}

/// The mandate transaction type a well-formed request implies.
pub open spec fn spec_mandate_type(r: PaymentsRequest) -> Option<MandateTransactionType> {
    if r.mandate_data is Some {
        Some(MandateTransactionType::NewMandateTransaction)
    } else if r.mandate_id is Some {
        Some(MandateTransactionType::RecurringMandateTransaction)
    } else {
        None
    }
}

/// The payment identifier the pipeline runs under: the request's if it
/// supplies one, else the freshly generated one the caller provides.
pub open spec fn spec_resolved_payment_id(r: PaymentsRequest, generated_payment_id: u64) -> u64 {
    match r.payment_id {
        Some(p) => p,
        None => generated_payment_id,
    }
}

/// Functional model of the validation stage.
pub open spec fn spec_validate_request(r: PaymentsRequest, account: MerchantAccount, generated_payment_id: u64) -> Result<ValidateResult, ConfirmError> {
    if spec_customer_details_contradictory(r) {
        Err(ConfirmError::Validation(ValidationFault::ContradictoryCustomerDetails))
    } else if spec_merchant_id_mismatch(r, account.merchant_id) {
        Err(ConfirmError::Validation(ValidationFault::MerchantIdMismatch))
    } else if spec_pm_fields_inconsistent(r) {
        Err(ConfirmError::Validation(ValidationFault::MissingPaymentMethodFields))
    } else if spec_mandate_malformed(r) {
        Err(ConfirmError::Validation(ValidationFault::MalformedMandate))
    } else {
        Ok(
            ValidateResult {
                merchant_id: account.merchant_id,
                payment_id: spec_resolved_payment_id(r, generated_payment_id),
                mandate_type: spec_mandate_type(r),
                storage_mode: account.storage_mode,
                requeue: r.retry_action == Some(RetryAction::Requeue),
            },
        )
    }
}

/// Validates a confirmation request against the merchant account: no
/// contradictory customer details, a consistent payment-method pair, an
/// internally consistent mandate, a matching merchant id, and a payment
/// identifier that is present or freshly generated (the caller passes the
/// generated fallback in).  Performs no I/O.
pub fn validate_request_core(r: &PaymentsRequest, account: &MerchantAccount, generated_payment_id: u64) -> (res: Result<ValidateResult, ConfirmError>)
    ensures
        res == spec_validate_request(*r, *account, generated_payment_id),
{
    if r.customer.is_some() && (r.customer_id.is_some() || r.name.is_some() || r.email.is_some()
        || r.phone.is_some()) {
        return Err(ConfirmError::Validation(ValidationFault::ContradictoryCustomerDetails));
    }
    if let Some(m) = r.merchant_id {
        if m != account.merchant_id {
            return Err(ConfirmError::Validation(ValidationFault::MerchantIdMismatch));
        }
    }
    if r.payment_method.is_some() != r.payment_method_data.is_some() {
        return Err(ConfirmError::Validation(ValidationFault::MissingPaymentMethodFields));
    }
    if r.mandate_data.is_some() && r.mandate_id.is_some() {
        return Err(ConfirmError::Validation(ValidationFault::MalformedMandate));
    }
    let payment_id = match r.payment_id {
        Some(p) => p,
        None => generated_payment_id,
    };
    let mandate_type = if r.mandate_data.is_some() {
        Some(MandateTransactionType::NewMandateTransaction)
    } else if r.mandate_id.is_some() {
        Some(MandateTransactionType::RecurringMandateTransaction)
    } else {
        None
    };
    Ok(
        ValidateResult {
            merchant_id: account.merchant_id,
            payment_id,
            mandate_type,
            storage_mode: account.storage_mode,
            requeue: matches!(r.retry_action, Some(RetryAction::Requeue)),
        },
    )
}

/// The customer details a request carries, flat fields and inline object
/// merged (flat fields win; validation forbids supplying both).
pub open spec fn spec_customer_details_from_request(r: PaymentsRequest) -> CustomerDetails {
    let inline = match r.customer {
        Some(c) => c,
        None => CustomerDetails { customer_id: None, name: None, email: None, phone: None },
    };
    CustomerDetails {
        customer_id: spec_merge(r.customer_id, inline.customer_id),
        name: spec_merge(r.name, inline.name),
        email: spec_merge(r.email, inline.email),
        phone: spec_merge(r.phone, inline.phone),
    }
}

/// Exec mirror of [`spec_customer_details_from_request`].
pub fn get_customer_details_from_request(r: &PaymentsRequest) -> (res: CustomerDetails)
    ensures
        res == spec_customer_details_from_request(*r),
{
    let inline = match r.customer {
        Some(c) => c,
        None => CustomerDetails { customer_id: None, name: None, email: None, phone: None },
    };
    CustomerDetails {
        customer_id: crate::request::merge(r.customer_id, inline.customer_id),
        name: crate::request::merge(r.name, inline.name),
        email: crate::request::merge(r.email, inline.email),
        phone: crate::request::merge(r.phone, inline.phone),
    }
}

/// The fulfillment window of an intent: the merchant's setting, or the
/// default.
pub open spec fn spec_fulfillment_time(account: MerchantAccount) -> u64 {
    match account.intent_fulfillment_time {
        Some(t) => t,
        None => DEFAULT_INTENT_FULFILLMENT_TIME,
    }
}

/// Exec mirror of [`spec_fulfillment_time`].
pub fn merchant_fulfillment_time(account: &MerchantAccount) -> (res: u64)
    ensures
        res == spec_fulfillment_time(*account),
{
    match account.intent_fulfillment_time {
        Some(t) => t,
        None => DEFAULT_INTENT_FULFILLMENT_TIME,
    }
}

/// A supplied client secret that differs from the intent's stored one.
pub open spec fn spec_client_secret_mismatch(r: PaymentsRequest, it: Intent) -> bool {
    match r.client_secret {
        Some(cs) => it.client_secret != Some(cs),
        None => false,
    }
}

/// A client-secret confirmation arriving after the fulfillment window
/// closed.
pub open spec fn spec_client_secret_expired(r: PaymentsRequest, it: Intent, fulfillment_time: u64, now: u64) -> bool {
    r.client_secret is Some && now > it.created_at && now - it.created_at > fulfillment_time
}

/// Checks the request's client secret against the intent: it must match
/// the stored secret and arrive within the fulfillment window.
pub fn authenticate_client_secret(r: &PaymentsRequest, it: &Intent, fulfillment_time: u64, now: u64) -> (res: Result<(), ConfirmError>)
    ensures
        res == if spec_client_secret_mismatch(*r, *it) {
            Err::<(), ConfirmError>(ConfirmError::Validation(ValidationFault::ClientSecretInvalid))
        } else if spec_client_secret_expired(*r, *it, fulfillment_time, now) {
            Err::<(), ConfirmError>(ConfirmError::Validation(ValidationFault::ClientSecretExpired))
        } else {
            Ok::<(), ConfirmError>(())
        },
{
    if let Some(cs) = r.client_secret {
        let matches_stored = match it.client_secret {
            Some(stored) => stored == cs,
            None => false,
        };
        if !matches_stored {
            return Err(ConfirmError::Validation(ValidationFault::ClientSecretInvalid));
        }
        if now > it.created_at && now - it.created_at > fulfillment_time {
            return Err(ConfirmError::Validation(ValidationFault::ClientSecretExpired));
        }
    }
    Ok(())
}

/// Checks supplied card data; other payment-method kinds carry opaque
/// payloads and pass.
pub fn validate_card_data(d: Option<PaymentMethodData>) -> (res: Result<(), ConfirmError>)
    ensures
        res == if payment_method_data_valid(d) {
            Ok::<(), ConfirmError>(())
        } else {
            Err::<(), ConfirmError>(ConfirmError::Validation(ValidationFault::InvalidCardData))
        },
{
    if let Some(PaymentMethodData::Card(c)) = d {
        if c.card_number == 0 || c.card_exp_month < 1 || c.card_exp_month > 12 {
            return Err(ConfirmError::Validation(ValidationFault::InvalidCardData));
        }
    }
    Ok(())
}

/// Nothing at all to pay with: no method, no data, no type, no mandate, no
/// token.
pub open spec fn spec_pm_or_token_missing(pm: Option<PaymentMethod>, pmd: Option<PaymentMethodData>, pmt: Option<PaymentMethodType>, mandate_type: Option<MandateTransactionType>, token: Option<u64>) -> bool {
    pm is None && pmd is None && pmt is None && mandate_type is None && token is None
}

/// A payment method or token must be present when required: some way to
/// pay has to be named.
pub fn validate_pm_or_token_given(pm: Option<PaymentMethod>, pmd: Option<PaymentMethodData>, pmt: Option<PaymentMethodType>, mandate_type: Option<MandateTransactionType>, token: Option<u64>) -> (res: Result<(), ConfirmError>)
    ensures
        res == if spec_pm_or_token_missing(pm, pmd, pmt, mandate_type, token) {
            Err::<(), ConfirmError>(
                ConfirmError::Validation(ValidationFault::PaymentMethodOrTokenMissing),
            )
        } else {
            Ok::<(), ConfirmError>(())
        },
{
    if pm.is_none() && pmd.is_none() && pmt.is_none() && mandate_type.is_none()
        && token.is_none() {
        Err(ConfirmError::Validation(ValidationFault::PaymentMethodOrTokenMissing))
    } else {
        Ok(())
    }
}

/// A customer id becomes mandatory once the request ties state to a
/// customer: an address or a future-usage consent.
pub open spec fn spec_customer_id_missing(has_shipping: bool, has_billing: bool, has_setup_future_usage: bool, customer_id: Option<u64>) -> bool {
    (has_shipping || has_billing || has_setup_future_usage) && customer_id is None
}

/// Exec mirror of [`spec_customer_id_missing`], failing with the
/// validation fault.
pub fn validate_customer_id_mandatory_cases(has_shipping: bool, has_billing: bool, has_setup_future_usage: bool, customer_id: Option<u64>) -> (res: Result<(), ConfirmError>)
    ensures
        res == if spec_customer_id_missing(has_shipping, has_billing, has_setup_future_usage, customer_id) {
            Err::<(), ConfirmError>(ConfirmError::Validation(ValidationFault::MissingCustomerId))
        } else {
            Ok::<(), ConfirmError>(())
        },
{
    if (has_shipping || has_billing || has_setup_future_usage) && customer_id.is_none() {
        Err(ConfirmError::Validation(ValidationFault::MissingCustomerId))
    } else {
        Ok(())
    }
}

} // verus!
