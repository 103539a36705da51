use payments_core::errors::StorageError;
use payments_core::records::{
    Attempt, Currency, Intent, StorageMode,
};
use payments_core::status::{AttemptStatus, IntentStatus};
use payments_core::store::{EntityStore, IntentConfirmUpdate};

fn base_intent() -> Intent {
    Intent {
        payment_id: 1,
        merchant_id: 10,
        status: IntentStatus::RequiresConfirmation,
        amount: 1000,
        currency: Currency::Usd,
        customer_id: None,
        shipping_address_id: None,
        billing_address_id: None,
        active_attempt_id: 0,
        return_url: None,
        setup_future_usage: None,
        metadata: None,
        order_details: None,
        connector_metadata: None,
        feature_metadata: None,
        allowed_payment_method_types: None,
        client_secret: None,
        created_at: 0,
    }
}

fn base_attempt() -> Attempt {
    Attempt {
        attempt_id: 0,
        payment_id: 1,
        merchant_id: 10,
        status: AttemptStatus::Started,
        amount: 1000,
        currency: Some(Currency::Usd),
        payment_method: None,
        payment_method_type: None,
        payment_method_data: None,
        connector: None,
        connector_response: None,
        authentication_type: None,
        browser_info: None,
        payment_token: None,
        payment_experience: None,
        capture_method: None,
        business_sub_label: None,
        mandate_details: None,
        straight_through_algorithm: None,
        error_code: None,
        error_message: None,
        amount_capturable: None,
    }
}

#[test]
fn address_resolution_is_idempotent() {
    let mut store = EntityStore::new();
    let a1 = store
        .find_or_create_address(Some(55), None, 10, Some(3), StorageMode::Strict)
        .unwrap();
    let a2 = store
        .find_or_create_address(Some(55), Some(a1.address_id), 10, Some(3), StorageMode::Strict)
        .unwrap();
    let a3 = store
        .find_or_create_address(Some(55), None, 10, Some(3), StorageMode::Strict)
        .unwrap();
    assert_eq!(a1.address_id, a2.address_id);
    assert_eq!(a1.address_id, a3.address_id);
    assert_eq!(store.addresses.len(), 1);
}

#[test]
fn different_payloads_resolve_to_different_addresses() {
    let mut store = EntityStore::new();
    let a1 = store
        .find_or_create_address(Some(55), None, 10, Some(3), StorageMode::Strict)
        .unwrap();
    let a2 = store
        .find_or_create_address(Some(56), None, 10, Some(3), StorageMode::Strict)
        .unwrap();
    assert_ne!(a1.address_id, a2.address_id);
    assert_eq!(store.addresses.len(), 2);
}

#[test]
fn a_supplied_payload_rewrites_the_referenced_address_in_place() {
    let mut store = EntityStore::new();
    let a1 = store
        .find_or_create_address(Some(55), None, 10, Some(3), StorageMode::Strict)
        .unwrap();
    let a2 = store
        .find_or_create_address(Some(77), Some(a1.address_id), 10, Some(3), StorageMode::Strict)
        .unwrap();
    assert_eq!(a2.address_id, a1.address_id);
    assert_eq!(a2.payload, 77);
    assert_eq!(store.addresses.len(), 1);
}

#[test]
fn missing_stored_reference_without_payload_resolves_to_nothing() {
    let mut store = EntityStore::new();
    let r = store.find_or_create_address(None, Some(9), 10, None, StorageMode::Strict);
    assert!(r.is_none());
    assert_eq!(store.addresses.len(), 0);
}

#[test]
fn credentials_upsert_is_idempotent() {
    let mut store = EntityStore::new();
    store.upsert_config(10, 21, 900, StorageMode::Strict);
    store.upsert_config(10, 21, 900, StorageMode::Strict);
    assert_eq!(store.configs.len(), 1);
    assert_eq!(store.configs[0].value, 900);
    store.upsert_config(10, 21, 901, StorageMode::Strict);
    assert_eq!(store.configs.len(), 1);
    assert_eq!(store.configs[0].value, 901);
}

#[test]
fn duplicate_intent_insertion_is_refused() {
    let mut store = EntityStore::new();
    store
        .insert_intent(base_intent(), base_attempt(), StorageMode::Strict)
        .unwrap();
    let err = store
        .insert_intent(base_intent(), base_attempt(), StorageMode::Strict)
        .unwrap_err();
    assert_eq!(err, StorageError::DuplicateValue);
    assert_eq!(store.intents.len(), 1);
}

#[test]
fn updating_a_vanished_intent_is_value_not_found() {
    let mut store = EntityStore::new();
    let patch = IntentConfirmUpdate {
        amount: 1,
        currency: Currency::Usd,
        status: IntentStatus::Processing,
        customer_id: None,
        shipping_address_id: None,
        billing_address_id: None,
        return_url: None,
        setup_future_usage: None,
        order_details: None,
        metadata: None,
    };
    let err = store.update_intent(1, 10, patch, StorageMode::Strict).unwrap_err();
    assert_eq!(err, StorageError::ValueNotFound);
}

#[test]
fn find_operations_are_keyed_by_merchant() {
    let mut store = EntityStore::new();
    let (it, at) = store
        .insert_intent(base_intent(), base_attempt(), StorageMode::Strict)
        .unwrap();
    assert_eq!(store.find_intent(1, 10, StorageMode::Strict), Some(it));
    assert_eq!(store.find_intent(1, 11, StorageMode::Strict), None);
    assert_eq!(
        store.find_attempt(1, 10, it.active_attempt_id, StorageMode::Strict),
        Some(at)
    );
    assert_eq!(store.find_attempt(1, 10, 999, StorageMode::Strict), None);
}

#[test]
fn customer_resolution_creates_then_finds() {
    let mut store = EntityStore::new();
    let details = payments_core::request::CustomerDetails {
        customer_id: Some(4),
        name: Some(300),
        email: None,
        phone: None,
    };
    let (c1, created1) = store.find_or_create_customer(4, 10, details, StorageMode::Strict);
    let (c2, created2) = store.find_or_create_customer(4, 10, details, StorageMode::Strict);
    assert!(created1);
    assert!(!created2);
    assert_eq!(c1, c2);
    assert_eq!(store.customers.len(), 1);
}
