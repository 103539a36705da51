use payments_core::confirm::{payment_confirm_core, PaymentConfirm};
use payments_core::errors::ConfirmError;
use payments_core::records::{
    Attempt, CardData, Currency, Intent, MerchantAccount, PaymentMethod, PaymentMethodData,
    PaymentMethodType, StorageMode,
};
use payments_core::request::{MandateData, PaymentsRequest, RetryAction};
use payments_core::status::{AttemptStatus, FrmSuggestion, IntentStatus};
use payments_core::store::EntityStore;

fn base_intent() -> Intent {
    Intent {
        payment_id: 1,
        merchant_id: 10,
        status: IntentStatus::RequiresPaymentMethod,
        amount: 1000,
        currency: Currency::Usd,
        customer_id: None,
        shipping_address_id: None,
        billing_address_id: None,
        active_attempt_id: 0,
        return_url: None,
        setup_future_usage: None,
        metadata: None,
        order_details: None,
        connector_metadata: None,
        feature_metadata: None,
        allowed_payment_method_types: None,
        client_secret: None,
        created_at: 0,
    }
}

fn base_attempt() -> Attempt {
    Attempt {
        attempt_id: 0,
        payment_id: 1,
        merchant_id: 10,
        status: AttemptStatus::Started,
        amount: 1000,
        currency: Some(Currency::Usd),
        payment_method: None,
        payment_method_type: None,
        payment_method_data: None,
        connector: None,
        connector_response: None,
        authentication_type: None,
        browser_info: None,
        payment_token: None,
        payment_experience: None,
        capture_method: None,
        business_sub_label: None,
        mandate_details: None,
        straight_through_algorithm: None,
        error_code: None,
        error_message: None,
        amount_capturable: None,
    }
}

fn base_request() -> PaymentsRequest {
    PaymentsRequest {
        payment_id: Some(1),
        merchant_id: None,
        customer: None,
        customer_id: None,
        name: None,
        email: None,
        phone: None,
        payment_method: None,
        payment_method_data: None,
        payment_method_type: None,
        payment_token: None,
        shipping: None,
        billing: None,
        confirm: Some(true),
        client_secret: None,
        return_url: None,
        setup_future_usage: None,
        capture_method: None,
        payment_experience: None,
        business_sub_label: None,
        browser_info: None,
        metadata: None,
        order_details: None,
        connector_metadata: None,
        feature_metadata: None,
        allowed_payment_method_types: None,
        mandate_id: None,
        mandate_data: None,
        off_session: None,
        retry_action: None,
        merchant_connector_details: None,
        routing: None,
        card_cvc: None,
    }
}

fn card_request() -> PaymentsRequest {
    let mut req = base_request();
    req.payment_method = Some(PaymentMethod::Card);
    req.payment_method_data = Some(PaymentMethodData::Card(CardData {
        card_number: 4242,
        card_exp_month: 12,
        card_exp_year: 2030,
    }));
    req
}

fn merchant() -> MerchantAccount {
    MerchantAccount {
        merchant_id: 10,
        storage_mode: StorageMode::Strict,
        intent_fulfillment_time: None,
    }
}

fn seeded_store(status: IntentStatus) -> (EntityStore, Intent, Attempt) {
    let mut store = EntityStore::new();
    let mut intent = base_intent();
    intent.status = status;
    let (it, at) = store
        .insert_intent(intent, base_attempt(), StorageMode::Strict)
        .unwrap();
    (store, it, at)
}

#[test]
fn card_confirmation_commits_processing_pending() {
    let (mut store, _it, _at) = seeded_store(IntentStatus::RequiresPaymentMethod);
    let pd = payment_confirm_core(&mut store, &card_request(), &merchant(), None, 99, 0, 7)
        .unwrap();
    assert_eq!(pd.payment_intent.status, IntentStatus::Processing);
    assert_eq!(pd.payment_attempt.status, AttemptStatus::Pending);
    assert_eq!(pd.payment_attempt.payment_method, Some(PaymentMethod::Card));
    assert_eq!(store.intents[0].status, IntentStatus::Processing);
    assert_eq!(store.attempts[0].status, AttemptStatus::Pending);
    assert_eq!(store.attempts[0].payment_method, Some(PaymentMethod::Card));
}

#[test]
fn succeeded_intent_rejects_confirmation_with_zero_writes() {
    let (mut store, it, at) = seeded_store(IntentStatus::Succeeded);
    let err = payment_confirm_core(&mut store, &card_request(), &merchant(), None, 99, 0, 7)
        .unwrap_err();
    assert_eq!(err, ConfirmError::NotAllowedInCurrentState);
    assert_eq!(store.intents.len(), 1);
    assert_eq!(store.attempts.len(), 1);
    assert_eq!(store.addresses.len(), 0);
    assert_eq!(store.configs.len(), 0);
    assert_eq!(store.intents[0], it);
    assert_eq!(store.attempts[0], at);
}

#[test]
fn every_blocked_status_rejects_confirmation() {
    let blocked = [
        IntentStatus::Cancelled,
        IntentStatus::Succeeded,
        IntentStatus::Processing,
        IntentStatus::RequiresCapture,
        IntentStatus::RequiresMerchantAction,
    ];
    for status in blocked {
        let (mut store, _it, _at) = seeded_store(status);
        let err = payment_confirm_core(&mut store, &card_request(), &merchant(), None, 99, 0, 7)
            .unwrap_err();
        assert_eq!(err, ConfirmError::NotAllowedInCurrentState);
    }
}

#[test]
fn fraud_cancel_commits_failed_failure_with_error_fields() {
    let (mut store, _it, _at) = seeded_store(IntentStatus::RequiresConfirmation);
    let pd = payment_confirm_core(
        &mut store,
        &card_request(),
        &merchant(),
        Some(FrmSuggestion::FrmCancelTransaction),
        99,
        0,
        7,
    )
    .unwrap();
    assert_eq!(pd.payment_intent.status, IntentStatus::Failed);
    assert_eq!(pd.payment_attempt.status, AttemptStatus::Failure);
    assert_eq!(store.intents[0].status, IntentStatus::Failed);
    assert_eq!(store.attempts[0].status, AttemptStatus::Failure);
}

#[test]
fn fraud_manual_review_commits_merchant_action_unresolved() {
    let (mut store, _it, _at) = seeded_store(IntentStatus::RequiresConfirmation);
    let pd = payment_confirm_core(
        &mut store,
        &card_request(),
        &merchant(),
        Some(FrmSuggestion::FrmManualReview),
        99,
        0,
        7,
    )
    .unwrap();
    assert_eq!(pd.payment_intent.status, IntentStatus::RequiresMerchantAction);
    assert_eq!(pd.payment_attempt.status, AttemptStatus::Unresolved);
    assert_eq!(store.intents[0].status, IntentStatus::RequiresMerchantAction);
    assert_eq!(store.attempts[0].status, AttemptStatus::Unresolved);
}

#[test]
fn auto_refund_suggestion_takes_the_normal_path() {
    let (mut store, _it, _at) = seeded_store(IntentStatus::RequiresConfirmation);
    let pd = payment_confirm_core(
        &mut store,
        &card_request(),
        &merchant(),
        Some(FrmSuggestion::FrmAutoRefund),
        99,
        0,
        7,
    )
    .unwrap();
    assert_eq!(pd.payment_intent.status, IntentStatus::Processing);
    assert_eq!(pd.payment_attempt.status, AttemptStatus::Pending);
}

#[test]
fn missing_payment_method_and_token_fails_before_persist() {
    let (mut store, it, at) = seeded_store(IntentStatus::RequiresPaymentMethod);
    let mut req = base_request();
    req.payment_method_type = Some(PaymentMethodType::Credit);
    let err =
        payment_confirm_core(&mut store, &req, &merchant(), None, 99, 0, 7).unwrap_err();
    assert_eq!(err, ConfirmError::PaymentMethodNotFound);
    assert_eq!(store.intents[0].status, it.status);
    assert_eq!(store.attempts[0].status, at.status);
}

#[test]
fn same_old_attempt_is_reused_without_retry_signal() {
    let (mut store, it, _at) = seeded_store(IntentStatus::RequiresConfirmation);
    let pd = payment_confirm_core(&mut store, &card_request(), &merchant(), None, 99, 0, 7)
        .unwrap();
    assert_eq!(pd.payment_attempt.attempt_id, it.active_attempt_id);
    assert_eq!(store.attempts.len(), 1);
    assert_eq!(store.intents[0].active_attempt_id, it.active_attempt_id);
}

#[test]
fn manual_retry_creates_a_fresh_attempt() {
    let (mut store, it, _at) = seeded_store(IntentStatus::Failed);
    let mut req = card_request();
    req.retry_action = Some(RetryAction::ManualRetry);
    let pd = payment_confirm_core(&mut store, &req, &merchant(), None, 99, 0, 7).unwrap();
    assert_ne!(pd.payment_attempt.attempt_id, it.active_attempt_id);
    assert_eq!(store.attempts.len(), 2);
    assert_eq!(store.intents[0].active_attempt_id, pd.payment_attempt.attempt_id);
    assert_eq!(pd.payment_attempt.status, AttemptStatus::Pending);
}

#[test]
fn supplied_fields_win_and_omitted_fields_survive() {
    let mut store = EntityStore::new();
    let mut intent = base_intent();
    intent.status = IntentStatus::RequiresConfirmation;
    intent.metadata = Some(5);
    intent.return_url = Some(40);
    let mut attempt = base_attempt();
    attempt.business_sub_label = Some(8);
    store
        .insert_intent(intent, attempt, StorageMode::Strict)
        .unwrap();
    let mut req = card_request();
    req.metadata = Some(77);
    let pd = payment_confirm_core(&mut store, &req, &merchant(), None, 99, 0, 7).unwrap();
    // the request supplied metadata: the committed value is the request's
    assert_eq!(store.intents[0].metadata, Some(77));
    // the request omitted the return URL and sub label: stored values survive
    assert_eq!(store.intents[0].return_url, Some(40));
    assert_eq!(store.attempts[0].business_sub_label, Some(8));
    assert_eq!(pd.payment_intent.metadata, Some(77));
}

#[test]
fn serialized_confirmations_leave_a_legal_pair() {
    let (mut store, _it, _at) = seeded_store(IntentStatus::RequiresPaymentMethod);
    payment_confirm_core(&mut store, &card_request(), &merchant(), None, 99, 0, 7).unwrap();
    let second =
        payment_confirm_core(&mut store, &card_request(), &merchant(), None, 98, 0, 7);
    assert_eq!(second.unwrap_err(), ConfirmError::NotAllowedInCurrentState);
    assert_eq!(store.intents[0].status, IntentStatus::Processing);
    assert_eq!(store.attempts[0].status, AttemptStatus::Pending);
}

#[test]
fn connector_priority_is_request_then_previous_then_default() {
    // explicit request override wins
    let (mut store, _it, _at) = seeded_store(IntentStatus::RequiresPaymentMethod);
    let mut req = card_request();
    req.routing = Some(3);
    let pd = payment_confirm_core(&mut store, &req, &merchant(), None, 99, 0, 7).unwrap();
    assert_eq!(pd.payment_attempt.connector, Some(3));
    // no override, no previous choice: the default routing outcome
    let (mut store2, _it2, _at2) = seeded_store(IntentStatus::RequiresPaymentMethod);
    let pd2 =
        payment_confirm_core(&mut store2, &card_request(), &merchant(), None, 99, 0, 7).unwrap();
    assert_eq!(pd2.payment_attempt.connector, Some(7));
}

#[test]
fn inline_credentials_are_upserted_once() {
    let (mut store, _it, _at) = seeded_store(IntentStatus::RequiresPaymentMethod);
    let mut req = card_request();
    req.merchant_connector_details = Some(payments_core::request::MerchantConnectorDetails {
        creds_identifier: 21,
        encoded_data: 900,
    });
    let pd = payment_confirm_core(&mut store, &req, &merchant(), None, 99, 0, 7).unwrap();
    assert_eq!(store.configs.len(), 1);
    assert_eq!(store.configs[0].merchant_id, 10);
    assert_eq!(store.configs[0].creds_identifier, 21);
    assert_eq!(store.configs[0].value, 900);
    assert_eq!(pd.creds_identifier, Some(21));
}

#[test]
fn shipping_address_is_resolved_and_linked() {
    let (mut store, _it, _at) = seeded_store(IntentStatus::RequiresPaymentMethod);
    let mut req = card_request();
    req.customer_id = Some(4);
    req.shipping = Some(61);
    let pd = payment_confirm_core(&mut store, &req, &merchant(), None, 99, 0, 7).unwrap();
    assert_eq!(store.addresses.len(), 1);
    let addr = store.addresses[0];
    assert_eq!(addr.merchant_id, 10);
    assert_eq!(addr.payload, 61);
    assert_eq!(pd.payment_intent.shipping_address_id, Some(addr.address_id));
    assert_eq!(pd.address.shipping.unwrap().address_id, addr.address_id);
}

#[test]
fn inline_customer_is_created_during_enrichment() {
    let (mut store, _it, _at) = seeded_store(IntentStatus::RequiresPaymentMethod);
    let mut req = card_request();
    req.customer_id = Some(4);
    req.name = Some(300);
    let pd = payment_confirm_core(&mut store, &req, &merchant(), None, 99, 0, 7).unwrap();
    assert!(pd.new_customer_created);
    assert_eq!(store.customers.len(), 1);
    assert_eq!(store.customers[0].customer_id, 4);
    assert_eq!(store.customers[0].name, Some(300));
    assert_eq!(store.intents[0].customer_id, Some(4));
}

#[test]
fn requeue_requests_schedule_a_tracker_task() {
    let op = PaymentConfirm;
    let at = base_attempt();
    let task = op.add_task_to_process_tracker(&at, true, Some(777)).unwrap();
    assert_eq!(task.attempt_id, at.attempt_id);
    assert_eq!(task.merchant_id, 10);
    assert_eq!(task.schedule_time, Some(777));
    assert!(op.add_task_to_process_tracker(&at, false, None).is_none());
}

#[test]
fn request_mandate_type_wins_over_stored_details() {
    let mut store = EntityStore::new();
    let mut intent = base_intent();
    intent.status = IntentStatus::RequiresConfirmation;
    let mut attempt = base_attempt();
    attempt.mandate_details = Some(9);
    store
        .insert_intent(intent, attempt, StorageMode::Strict)
        .unwrap();
    let mut req = card_request();
    req.mandate_data = Some(MandateData { mandate_type: Some(5), customer_acceptance: Some(1) });
    let pd = payment_confirm_core(&mut store, &req, &merchant(), None, 99, 0, 7).unwrap();
    assert_eq!(
        pd.setup_mandate,
        Some(MandateData { mandate_type: Some(5), customer_acceptance: Some(1) })
    );
}

#[test]
fn omitted_mandate_type_falls_back_to_stored_details() {
    let mut store = EntityStore::new();
    let mut intent = base_intent();
    intent.status = IntentStatus::RequiresConfirmation;
    let mut attempt = base_attempt();
    attempt.mandate_details = Some(9);
    store
        .insert_intent(intent, attempt, StorageMode::Strict)
        .unwrap();
    let mut req = card_request();
    req.mandate_data = Some(MandateData { mandate_type: None, customer_acceptance: Some(1) });
    let pd = payment_confirm_core(&mut store, &req, &merchant(), None, 99, 0, 7).unwrap();
    assert_eq!(
        pd.setup_mandate,
        Some(MandateData { mandate_type: Some(9), customer_acceptance: Some(1) })
    );
}
