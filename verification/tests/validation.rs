use payments_core::confirm::{payment_confirm_core, PaymentConfirm};
use payments_core::errors::{ConfirmError, ValidationFault};
use payments_core::records::{
    Attempt, CardData, Currency, Intent, MerchantAccount, PaymentMethod, PaymentMethodData,
    StorageMode,
};
use payments_core::request::{
    CustomerDetails, MandateData, PaymentsRequest, RetryAction,
};
use payments_core::status::{AttemptStatus, IntentStatus};
use payments_core::store::EntityStore;

fn base_intent() -> Intent {
    Intent {
        payment_id: 1,
        merchant_id: 10,
        status: IntentStatus::RequiresConfirmation,
        amount: 1000,
        currency: Currency::Usd,
        customer_id: None,
        shipping_address_id: None,
        billing_address_id: None,
        active_attempt_id: 0,
        return_url: None,
        setup_future_usage: None,
        metadata: None,
        order_details: None,
        connector_metadata: None,
        feature_metadata: None,
        allowed_payment_method_types: None,
        client_secret: None,
        created_at: 0,
    }
}

fn base_attempt() -> Attempt {
    Attempt {
        attempt_id: 0,
        payment_id: 1,
        merchant_id: 10,
        status: AttemptStatus::Started,
        amount: 1000,
        currency: Some(Currency::Usd),
        payment_method: None,
        payment_method_type: None,
        payment_method_data: None,
        connector: None,
        connector_response: None,
        authentication_type: None,
        browser_info: None,
        payment_token: None,
        payment_experience: None,
        capture_method: None,
        business_sub_label: None,
        mandate_details: None,
        straight_through_algorithm: None,
        error_code: None,
        error_message: None,
        amount_capturable: None,
    }
}

fn base_request() -> PaymentsRequest {
    PaymentsRequest {
        payment_id: Some(1),
        merchant_id: None,
        customer: None,
        customer_id: None,
        name: None,
        email: None,
        phone: None,
        payment_method: None,
        payment_method_data: None,
        payment_method_type: None,
        payment_token: None,
        shipping: None,
        billing: None,
        confirm: Some(true),
        client_secret: None,
        return_url: None,
        setup_future_usage: None,
        capture_method: None,
        payment_experience: None,
        business_sub_label: None,
        browser_info: None,
        metadata: None,
        order_details: None,
        connector_metadata: None,
        feature_metadata: None,
        allowed_payment_method_types: None,
        mandate_id: None,
        mandate_data: None,
        off_session: None,
        retry_action: None,
        merchant_connector_details: None,
        routing: None,
        card_cvc: None,
    }
}

fn card_request() -> PaymentsRequest {
    let mut req = base_request();
    req.payment_method = Some(PaymentMethod::Card);
    req.payment_method_data = Some(PaymentMethodData::Card(CardData {
        card_number: 4242,
        card_exp_month: 12,
        card_exp_year: 2030,
    }));
    req
}

fn merchant() -> MerchantAccount {
    MerchantAccount {
        merchant_id: 10,
        storage_mode: StorageMode::Strict,
        intent_fulfillment_time: None,
    }
}

fn seeded() -> EntityStore {
    let mut store = EntityStore::new();
    store
        .insert_intent(base_intent(), base_attempt(), StorageMode::Strict)
        .unwrap();
    store
}

fn confirm(store: &mut EntityStore, req: &PaymentsRequest) -> Result<(), ConfirmError> {
    payment_confirm_core(store, req, &merchant(), None, 99, 0, 7).map(|_| ())
}

#[test]
fn contradictory_customer_details_are_rejected_without_io() {
    let mut store = seeded();
    let mut req = card_request();
    req.customer = Some(CustomerDetails { customer_id: Some(4), name: None, email: None, phone: None });
    req.customer_id = Some(4);
    let err = confirm(&mut store, &req).unwrap_err();
    assert_eq!(
        err,
        ConfirmError::Validation(ValidationFault::ContradictoryCustomerDetails)
    );
    assert_eq!(store.addresses.len(), 0);
    assert_eq!(store.customers.len(), 0);
}

#[test]
fn merchant_id_mismatch_is_rejected() {
    let mut store = seeded();
    let mut req = card_request();
    req.merchant_id = Some(11);
    let err = confirm(&mut store, &req).unwrap_err();
    assert_eq!(err, ConfirmError::Validation(ValidationFault::MerchantIdMismatch));
}

#[test]
fn payment_method_without_its_data_is_rejected() {
    let mut store = seeded();
    let mut req = base_request();
    req.payment_method = Some(PaymentMethod::Card);
    let err = confirm(&mut store, &req).unwrap_err();
    assert_eq!(
        err,
        ConfirmError::Validation(ValidationFault::MissingPaymentMethodFields)
    );
}

#[test]
fn mandate_data_with_mandate_id_is_malformed() {
    let mut store = seeded();
    let mut req = card_request();
    req.mandate_data = Some(MandateData { mandate_type: Some(1), customer_acceptance: Some(2) });
    req.mandate_id = Some(5);
    let err = confirm(&mut store, &req).unwrap_err();
    assert_eq!(err, ConfirmError::Validation(ValidationFault::MalformedMandate));
}

#[test]
fn invalid_card_expiry_month_is_rejected() {
    let mut store = seeded();
    let mut req = base_request();
    req.payment_method = Some(PaymentMethod::Card);
    req.payment_method_data = Some(PaymentMethodData::Card(CardData {
        card_number: 4242,
        card_exp_month: 13,
        card_exp_year: 2030,
    }));
    let err = confirm(&mut store, &req).unwrap_err();
    assert_eq!(err, ConfirmError::Validation(ValidationFault::InvalidCardData));
}

#[test]
fn nothing_to_pay_with_is_rejected_at_the_gate() {
    let mut store = seeded();
    let req = base_request();
    let err = confirm(&mut store, &req).unwrap_err();
    assert_eq!(
        err,
        ConfirmError::Validation(ValidationFault::PaymentMethodOrTokenMissing)
    );
}

#[test]
fn an_attempt_without_currency_is_rejected() {
    let mut store = EntityStore::new();
    let mut attempt = base_attempt();
    attempt.currency = None;
    store
        .insert_intent(base_intent(), attempt, StorageMode::Strict)
        .unwrap();
    let err = confirm(&mut store, &card_request()).unwrap_err();
    assert_eq!(err, ConfirmError::Validation(ValidationFault::MissingCurrency));
}

#[test]
fn shipping_without_any_customer_id_is_rejected() {
    let mut store = seeded();
    let mut req = card_request();
    req.shipping = Some(61);
    let err = confirm(&mut store, &req).unwrap_err();
    assert_eq!(err, ConfirmError::Validation(ValidationFault::MissingCustomerId));
}

#[test]
fn wrong_client_secret_is_rejected_without_writes() {
    let mut store = EntityStore::new();
    let mut intent = base_intent();
    intent.client_secret = Some(42);
    store
        .insert_intent(intent, base_attempt(), StorageMode::Strict)
        .unwrap();
    let mut req = card_request();
    req.client_secret = Some(41);
    let err = confirm(&mut store, &req).unwrap_err();
    assert_eq!(err, ConfirmError::Validation(ValidationFault::ClientSecretInvalid));
    assert_eq!(store.addresses.len(), 0);
}

#[test]
fn client_secret_after_fulfillment_window_is_expired() {
    let mut store = EntityStore::new();
    let mut intent = base_intent();
    intent.client_secret = Some(42);
    intent.created_at = 100;
    store
        .insert_intent(intent, base_attempt(), StorageMode::Strict)
        .unwrap();
    let mut req = card_request();
    req.client_secret = Some(42);
    // default fulfillment window is 900 seconds
    let err = payment_confirm_core(&mut store, &req, &merchant(), None, 99, 1001, 7)
        .unwrap_err();
    assert_eq!(err, ConfirmError::Validation(ValidationFault::ClientSecretExpired));
}

#[test]
fn missing_payment_record_is_payment_not_found() {
    let mut store = EntityStore::new();
    let err = confirm(&mut store, &card_request()).unwrap_err();
    assert_eq!(err, ConfirmError::PaymentNotFound);
}

#[test]
fn validation_produces_resolved_result() {
    let op = PaymentConfirm;
    let mut req = card_request();
    req.payment_id = None;
    req.retry_action = Some(RetryAction::Requeue);
    let vr = op.validate_request(&req, &merchant(), 555).unwrap();
    assert_eq!(vr.payment_id, 555);
    assert_eq!(vr.merchant_id, 10);
    assert!(vr.requeue);
    assert_eq!(vr.mandate_type, None);
}
