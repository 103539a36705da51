//! In-memory model of the entity store: key-addressed CRUD for Intent,
//! Attempt, Address, Customer and Config, each operation taking a
//! consistency-mode parameter.
//!
//! The store is the only shared mutable resource of the pipeline.  Its
//! well-formedness invariant [`store_wf`] captures the global data-model
//! invariants: at most one intent per (merchant id, payment id), unique
//! attempt and address identifiers (all below the fresh-id counter), no
//! duplicate address rows per (merchant id, customer id, payload), unique
//! merchant-scoped customers and config rows, and every intent's
//! active-attempt pointer referencing an existing attempt.

use vstd::prelude::*;
use crate::errors::StorageError;
use crate::records::{
    Address, Attempt, AuthenticationType, CaptureMethod, ConfigEntry, Currency, Customer,
    FutureUsage, Intent, PaymentMethod, PaymentMethodData, PaymentMethodType, StorageMode,
};
use crate::request::spec_merge;
use crate::status::{AttemptStatus, IntentStatus};

verus! {

/// Mathematical view of the entity store.
pub struct StoreView {
    pub intents: Seq<Intent>,
    pub attempts: Seq<Attempt>,
    pub addresses: Seq<Address>,
    pub customers: Seq<Customer>,
    pub configs: Seq<ConfigEntry>,
    pub next_id: u64,
}

/// The entity store.
pub struct EntityStore {
    pub intents: Vec<Intent>,
    pub attempts: Vec<Attempt>,
    pub addresses: Vec<Address>,
    pub customers: Vec<Customer>,
    pub configs: Vec<ConfigEntry>,
    pub next_id: u64,
}

impl View for EntityStore {
    type V = StoreView;

    open spec fn view(&self) -> StoreView {
        StoreView {
            intents: self.intents@,
            attempts: self.attempts@,
            addresses: self.addresses@,
            customers: self.customers@,
            configs: self.configs@,
            next_id: self.next_id,
        }
    }
}

// ---------------------------------------------------------------------------
// Keys and lookups
// ---------------------------------------------------------------------------

pub open spec fn intent_key_is(it: Intent, payment_id: u64, merchant_id: u64) -> bool {
    it.payment_id == payment_id && it.merchant_id == merchant_id
}

pub open spec fn has_intent(s: Seq<Intent>, payment_id: u64, merchant_id: u64) -> bool {
    exists|i: int| 0 <= i < s.len() && intent_key_is(s[i], payment_id, merchant_id)
}

/// The intent at a key; meaningful only under key uniqueness.
pub open spec fn the_intent(s: Seq<Intent>, payment_id: u64, merchant_id: u64) -> Intent {
    choose|it: Intent| s.contains(it) && intent_key_is(it, payment_id, merchant_id)
}

pub open spec fn attempt_key_is(at: Attempt, payment_id: u64, merchant_id: u64, attempt_id: u64) -> bool {
    at.payment_id == payment_id && at.merchant_id == merchant_id && at.attempt_id == attempt_id
}

pub open spec fn has_attempt(s: Seq<Attempt>, payment_id: u64, merchant_id: u64, attempt_id: u64) -> bool {
    exists|i: int| 0 <= i < s.len() && attempt_key_is(s[i], payment_id, merchant_id, attempt_id)
}

pub open spec fn the_attempt(s: Seq<Attempt>, payment_id: u64, merchant_id: u64, attempt_id: u64) -> Attempt {
    choose|at: Attempt| s.contains(at) && attempt_key_is(at, payment_id, merchant_id, attempt_id)
}

pub open spec fn addr_key_is(a: Address, merchant_id: u64, customer_id: Option<u64>, payload: u64) -> bool {
    a.merchant_id == merchant_id && a.customer_id == customer_id && a.payload == payload
}

pub open spec fn has_addr_key(s: Seq<Address>, merchant_id: u64, customer_id: Option<u64>, payload: u64) -> bool {
    exists|i: int| 0 <= i < s.len() && addr_key_is(s[i], merchant_id, customer_id, payload)
}

pub open spec fn the_addr_by_key(s: Seq<Address>, merchant_id: u64, customer_id: Option<u64>, payload: u64) -> Address {
    choose|a: Address| s.contains(a) && addr_key_is(a, merchant_id, customer_id, payload)
}

pub open spec fn has_addr_id(s: Seq<Address>, address_id: u64) -> bool {
    exists|i: int| 0 <= i < s.len() && s[i].address_id == address_id
}

pub open spec fn the_addr_by_id(s: Seq<Address>, address_id: u64) -> Address {
    choose|a: Address| s.contains(a) && a.address_id == address_id
}

/// The index of the address row holding an identifier; meaningful only
/// under identifier uniqueness.
pub open spec fn the_addr_id_idx(s: Seq<Address>, address_id: u64) -> int {
    choose|i: int| 0 <= i < s.len() && s[i].address_id == address_id
}

pub open spec fn customer_key_is(c: Customer, customer_id: u64, merchant_id: u64) -> bool {
    c.customer_id == customer_id && c.merchant_id == merchant_id
}

pub open spec fn has_customer(s: Seq<Customer>, customer_id: u64, merchant_id: u64) -> bool {
    exists|i: int| 0 <= i < s.len() && customer_key_is(s[i], customer_id, merchant_id)
}

pub open spec fn the_customer(s: Seq<Customer>, customer_id: u64, merchant_id: u64) -> Customer {
    choose|c: Customer| s.contains(c) && customer_key_is(c, customer_id, merchant_id)
}

pub open spec fn config_key_is(c: ConfigEntry, merchant_id: u64, creds_identifier: u64) -> bool {
    c.merchant_id == merchant_id && c.creds_identifier == creds_identifier
}

pub open spec fn has_config(s: Seq<ConfigEntry>, merchant_id: u64, creds_identifier: u64) -> bool {
    exists|i: int| 0 <= i < s.len() && config_key_is(s[i], merchant_id, creds_identifier)
}

pub open spec fn the_config_idx(s: Seq<ConfigEntry>, merchant_id: u64, creds_identifier: u64) -> int {
    choose|i: int| 0 <= i < s.len() && config_key_is(s[i], merchant_id, creds_identifier)
}

// ---------------------------------------------------------------------------
// Well-formedness
// ---------------------------------------------------------------------------

pub open spec fn intents_key_unique(s: Seq<Intent>) -> bool {
    forall|i: int, j: int|
        0 <= i < s.len() && 0 <= j < s.len() && i != j ==> !(s[i].payment_id == s[j].payment_id
            && s[i].merchant_id == s[j].merchant_id)
}

pub open spec fn attempts_id_unique(s: Seq<Attempt>) -> bool {
    forall|i: int, j: int|
        0 <= i < s.len() && 0 <= j < s.len() && i != j ==> s[i].attempt_id != s[j].attempt_id
}

pub open spec fn attempt_ids_bounded(s: Seq<Attempt>, next_id: u64) -> bool {
    forall|i: int| 0 <= i < s.len() ==> s[i].attempt_id < next_id
}

pub open spec fn addresses_id_unique(s: Seq<Address>) -> bool {
    forall|i: int, j: int|
        0 <= i < s.len() && 0 <= j < s.len() && i != j ==> s[i].address_id != s[j].address_id
}

pub open spec fn address_ids_bounded(s: Seq<Address>, next_id: u64) -> bool {
    forall|i: int| 0 <= i < s.len() ==> s[i].address_id < next_id
}

pub open spec fn addresses_key_unique(s: Seq<Address>) -> bool {
    forall|i: int, j: int|
        0 <= i < s.len() && 0 <= j < s.len() && i != j ==> !(s[i].merchant_id == s[j].merchant_id
            && s[i].customer_id == s[j].customer_id && s[i].payload == s[j].payload)
}

pub open spec fn customers_key_unique(s: Seq<Customer>) -> bool {
    forall|i: int, j: int|
        0 <= i < s.len() && 0 <= j < s.len() && i != j ==> !(s[i].customer_id == s[j].customer_id
            && s[i].merchant_id == s[j].merchant_id)
}

pub open spec fn configs_key_unique(s: Seq<ConfigEntry>) -> bool {
    forall|i: int, j: int|
        0 <= i < s.len() && 0 <= j < s.len() && i != j ==> !(s[i].merchant_id == s[j].merchant_id
            && s[i].creds_identifier == s[j].creds_identifier)
}

/// Every intent's active-attempt pointer references an existing attempt.
pub open spec fn intents_linked(sv: StoreView) -> bool {
    forall|i: int|
        0 <= i < sv.intents.len() ==> has_attempt(
            sv.attempts,
            sv.intents[i].payment_id,
            sv.intents[i].merchant_id,
            sv.intents[i].active_attempt_id,
        )
}

/// Global well-formedness of the store.
pub open spec fn store_wf(sv: StoreView) -> bool {
    &&& intents_key_unique(sv.intents)
    &&& attempts_id_unique(sv.attempts)
    &&& attempt_ids_bounded(sv.attempts, sv.next_id)
    &&& addresses_id_unique(sv.addresses)
    &&& address_ids_bounded(sv.addresses, sv.next_id)
    &&& addresses_key_unique(sv.addresses)
    &&& customers_key_unique(sv.customers)
    &&& configs_key_unique(sv.configs)
    &&& intents_linked(sv)
}

// ---------------------------------------------------------------------------
// Uniqueness gives determinacy of the choose-based lookups
// ---------------------------------------------------------------------------

pub proof fn lemma_the_intent(s: Seq<Intent>, payment_id: u64, merchant_id: u64, i: int)
    requires
        intents_key_unique(s),
        0 <= i < s.len(),
        intent_key_is(s[i], payment_id, merchant_id),
    ensures
        has_intent(s, payment_id, merchant_id),
        the_intent(s, payment_id, merchant_id) == s[i],
{
    assert(s.contains(s[i]));
    let it = the_intent(s, payment_id, merchant_id);
    assert(s.contains(it) && intent_key_is(it, payment_id, merchant_id));
    let j: int = choose|j: int| 0 <= j < s.len() && s[j] == it;
    assert(0 <= j < s.len() && s[j] == it);
    assert(j == i);
}

pub proof fn lemma_the_attempt(s: Seq<Attempt>, payment_id: u64, merchant_id: u64, attempt_id: u64, i: int)
    requires
        attempts_id_unique(s),
        0 <= i < s.len(),
        attempt_key_is(s[i], payment_id, merchant_id, attempt_id),
    ensures
        has_attempt(s, payment_id, merchant_id, attempt_id),
        the_attempt(s, payment_id, merchant_id, attempt_id) == s[i],
{
    assert(s.contains(s[i]));
    let at = the_attempt(s, payment_id, merchant_id, attempt_id);
    assert(s.contains(at) && attempt_key_is(at, payment_id, merchant_id, attempt_id));
    let j: int = choose|j: int| 0 <= j < s.len() && s[j] == at;
    assert(0 <= j < s.len() && s[j] == at);
    assert(j == i);
}

pub proof fn lemma_the_addr_by_key(s: Seq<Address>, merchant_id: u64, customer_id: Option<u64>, payload: u64, i: int)
    requires
        addresses_key_unique(s),
        0 <= i < s.len(),
        addr_key_is(s[i], merchant_id, customer_id, payload),
    ensures
        has_addr_key(s, merchant_id, customer_id, payload),
        the_addr_by_key(s, merchant_id, customer_id, payload) == s[i],
{
    assert(s.contains(s[i]));
    let a = the_addr_by_key(s, merchant_id, customer_id, payload);
    assert(s.contains(a) && addr_key_is(a, merchant_id, customer_id, payload));
    let j: int = choose|j: int| 0 <= j < s.len() && s[j] == a;
    assert(0 <= j < s.len() && s[j] == a);
    assert(j == i);
}

pub proof fn lemma_the_addr_by_id(s: Seq<Address>, address_id: u64, i: int)
    requires
        addresses_id_unique(s),
        0 <= i < s.len(),
        s[i].address_id == address_id,
    ensures
        has_addr_id(s, address_id),
        the_addr_by_id(s, address_id) == s[i],
        the_addr_id_idx(s, address_id) == i,
{
    assert(s.contains(s[i]));
    let a = the_addr_by_id(s, address_id);
    assert(s.contains(a) && a.address_id == address_id);
    let j: int = choose|j: int| 0 <= j < s.len() && s[j] == a;
    assert(0 <= j < s.len() && s[j] == a);
    assert(j == i);
    let k = the_addr_id_idx(s, address_id);
    assert(0 <= k < s.len() && s[k].address_id == address_id);
    assert(k == i);
}

pub proof fn lemma_the_customer(s: Seq<Customer>, customer_id: u64, merchant_id: u64, i: int)
    requires
        customers_key_unique(s),
        0 <= i < s.len(),
        customer_key_is(s[i], customer_id, merchant_id),
    ensures
        has_customer(s, customer_id, merchant_id),
        the_customer(s, customer_id, merchant_id) == s[i],
{
    assert(s.contains(s[i]));
    let c = the_customer(s, customer_id, merchant_id);
    assert(s.contains(c) && customer_key_is(c, customer_id, merchant_id));
    let j: int = choose|j: int| 0 <= j < s.len() && s[j] == c;
    assert(0 <= j < s.len() && s[j] == c);
    assert(j == i);
}

// ---------------------------------------------------------------------------
// Update payloads and their application
// ---------------------------------------------------------------------------

/// The intent patch a confirmation commits.  Optional fields follow the
/// merge policy: a supplied value wins, an omitted one preserves storage.
#[derive(Clone, Copy, Debug, PartialEq, Eq, Structural)]
pub struct IntentConfirmUpdate {
    pub amount: u64,
    pub currency: Currency,
    pub status: IntentStatus,
    pub customer_id: Option<u64>,
    pub shipping_address_id: Option<u64>,
    pub billing_address_id: Option<u64>,
    pub return_url: Option<u64>,
    pub setup_future_usage: Option<FutureUsage>,
    pub order_details: Option<u64>,
    pub metadata: Option<u64>,
}

pub open spec fn spec_apply_intent_confirm(it: Intent, u: IntentConfirmUpdate) -> Intent {
    Intent {
        amount: u.amount,
        currency: u.currency,
        status: u.status,
        customer_id: spec_merge(u.customer_id, it.customer_id),
        shipping_address_id: spec_merge(u.shipping_address_id, it.shipping_address_id),
        billing_address_id: spec_merge(u.billing_address_id, it.billing_address_id),
        return_url: spec_merge(u.return_url, it.return_url),
        setup_future_usage: spec_merge(u.setup_future_usage, it.setup_future_usage),
        order_details: spec_merge(u.order_details, it.order_details),
        metadata: spec_merge(u.metadata, it.metadata),
        ..it
    }
}

/// The attempt patch a confirmation commits.  The doubly-optional error
/// fields distinguish "set to this (possibly empty) value" from "leave".
#[derive(Clone, Copy, Debug, PartialEq, Eq, Structural)]
pub struct AttemptConfirmUpdate {
    pub amount: u64,
    pub currency: Currency,
    pub status: AttemptStatus,
    pub payment_method: Option<PaymentMethod>,
    pub authentication_type: Option<AuthenticationType>,
    pub browser_info: Option<u64>,
    pub connector: Option<u64>,
    pub payment_token: Option<u64>,
    pub payment_method_data: Option<PaymentMethodData>,
    pub payment_method_type: Option<PaymentMethodType>,
    pub payment_experience: Option<u64>,
    pub capture_method: Option<CaptureMethod>,
    pub business_sub_label: Option<u64>,
    pub straight_through_algorithm: Option<u64>,
    pub error_code: Option<Option<u64>>,
    pub error_message: Option<Option<u64>>,
    pub amount_capturable: Option<u64>,
}

pub open spec fn spec_apply_attempt_confirm(at: Attempt, u: AttemptConfirmUpdate) -> Attempt {
    Attempt {
        amount: u.amount,
        currency: Some(u.currency),
        status: u.status,
        payment_method: spec_merge(u.payment_method, at.payment_method),
        authentication_type: spec_merge(u.authentication_type, at.authentication_type),
        browser_info: spec_merge(u.browser_info, at.browser_info),
        connector: spec_merge(u.connector, at.connector),
        payment_token: spec_merge(u.payment_token, at.payment_token),
        payment_method_data: spec_merge(u.payment_method_data, at.payment_method_data),
        payment_method_type: spec_merge(u.payment_method_type, at.payment_method_type),
        payment_experience: spec_merge(u.payment_experience, at.payment_experience),
        capture_method: spec_merge(u.capture_method, at.capture_method),
        business_sub_label: spec_merge(u.business_sub_label, at.business_sub_label),
        straight_through_algorithm: spec_merge(
            u.straight_through_algorithm,
            at.straight_through_algorithm,
        ),
        error_code: match u.error_code {
            Some(v) => v,
            None => at.error_code,
        },
        error_message: match u.error_message {
            Some(v) => v,
            None => at.error_message,
        },
        amount_capturable: spec_merge(u.amount_capturable, at.amount_capturable),
        ..at
    }
}

/// A customer patch; supplied fields win, omitted ones preserve storage.
#[derive(Clone, Copy, Debug, PartialEq, Eq, Structural)]
pub struct CustomerUpdate {
    pub name: Option<u64>,
    pub email: Option<u64>,
    pub phone: Option<u64>,
}

pub open spec fn spec_apply_customer_update(c: Customer, u: CustomerUpdate) -> Customer {
    Customer {
        name: spec_merge(u.name, c.name),
        email: spec_merge(u.email, c.email),
        phone: spec_merge(u.phone, c.phone),
        ..c
    }
}

// ---------------------------------------------------------------------------
// Index search helpers
// ---------------------------------------------------------------------------

fn find_intent_idx(v: &Vec<Intent>, payment_id: u64, merchant_id: u64) -> (r: Option<usize>)
    ensures
        match r {
            Some(i) => i < v@.len() && intent_key_is(v@[i as int], payment_id, merchant_id),
            None => !has_intent(v@, payment_id, merchant_id),
        },
{
    let mut i: usize = 0;
    while i < v.len()
        invariant
            i <= v@.len(),
            forall|j: int| 0 <= j < i ==> !intent_key_is(v@[j], payment_id, merchant_id),
        decreases v@.len() - i,
    {
        if v[i].payment_id == payment_id && v[i].merchant_id == merchant_id {
            return Some(i);
        }
        i = i + 1;
    }
    None
}

fn find_attempt_idx(v: &Vec<Attempt>, payment_id: u64, merchant_id: u64, attempt_id: u64) -> (r: Option<usize>)
    ensures
        match r {
            Some(i) => i < v@.len() && attempt_key_is(v@[i as int], payment_id, merchant_id, attempt_id),
            None => !has_attempt(v@, payment_id, merchant_id, attempt_id),
        },
{
    let mut i: usize = 0;
    while i < v.len()
        invariant
            i <= v@.len(),
            forall|j: int| 0 <= j < i ==> !attempt_key_is(v@[j], payment_id, merchant_id, attempt_id),
        decreases v@.len() - i,
    {
        if v[i].payment_id == payment_id && v[i].merchant_id == merchant_id && v[i].attempt_id
            == attempt_id {
            return Some(i);
        }
        i = i + 1;
    }
    None
}

fn find_addr_key_idx(v: &Vec<Address>, merchant_id: u64, customer_id: Option<u64>, payload: u64) -> (r: Option<usize>)
    ensures
        match r {
            Some(i) => i < v@.len() && addr_key_is(v@[i as int], merchant_id, customer_id, payload),
            None => !has_addr_key(v@, merchant_id, customer_id, payload),
        },
{
    let mut i: usize = 0;
    while i < v.len()
        invariant
            i <= v@.len(),
            forall|j: int| 0 <= j < i ==> !addr_key_is(v@[j], merchant_id, customer_id, payload),
        decreases v@.len() - i,
    {
        let cid_match = match (v[i].customer_id, customer_id) {
            (Some(a), Some(b)) => a == b,
            (None, None) => true,
            _ => false,
        };
        if v[i].merchant_id == merchant_id && cid_match && v[i].payload == payload {
            return Some(i);
        }
        i = i + 1;
    }
    None
}

fn find_addr_id_idx(v: &Vec<Address>, address_id: u64) -> (r: Option<usize>)
    ensures
        match r {
            Some(i) => i < v@.len() && v@[i as int].address_id == address_id,
            None => !has_addr_id(v@, address_id),
        },
{
    let mut i: usize = 0;
    while i < v.len()
        invariant
            i <= v@.len(),
            forall|j: int| 0 <= j < i ==> v@[j].address_id != address_id,
        decreases v@.len() - i,
    {
        if v[i].address_id == address_id {
            return Some(i);
        }
        i = i + 1;
    }
    None
}

fn find_customer_idx(v: &Vec<Customer>, customer_id: u64, merchant_id: u64) -> (r: Option<usize>)
    ensures
        match r {
            Some(i) => i < v@.len() && customer_key_is(v@[i as int], customer_id, merchant_id),
            None => !has_customer(v@, customer_id, merchant_id),
        },
{
    let mut i: usize = 0;
    while i < v.len()
        invariant
            i <= v@.len(),
            forall|j: int| 0 <= j < i ==> !customer_key_is(v@[j], customer_id, merchant_id),
        decreases v@.len() - i,
    {
        if v[i].customer_id == customer_id && v[i].merchant_id == merchant_id {
            return Some(i);
        }
        i = i + 1;
    }
    None
}

fn find_config_idx(v: &Vec<ConfigEntry>, merchant_id: u64, creds_identifier: u64) -> (r: Option<usize>)
    ensures
        match r {
            Some(i) => i < v@.len() && config_key_is(v@[i as int], merchant_id, creds_identifier),
            None => !has_config(v@, merchant_id, creds_identifier),
        },
{
    let mut i: usize = 0;
    while i < v.len()
        invariant
            i <= v@.len(),
            forall|j: int| 0 <= j < i ==> !config_key_is(v@[j], merchant_id, creds_identifier),
        decreases v@.len() - i,
    {
        if v[i].merchant_id == merchant_id && v[i].creds_identifier == creds_identifier {
            return Some(i);
        }
        i = i + 1;
    }
    None
}


// ---------------------------------------------------------------------------
// Exec application of update payloads
// ---------------------------------------------------------------------------

fn apply_intent_confirm(it: Intent, u: IntentConfirmUpdate) -> (r: Intent)
    ensures
        r == spec_apply_intent_confirm(it, u),
{
    Intent {
        amount: u.amount,
        currency: u.currency,
        status: u.status,
        customer_id: crate::request::merge(u.customer_id, it.customer_id),
        shipping_address_id: crate::request::merge(u.shipping_address_id, it.shipping_address_id),
        billing_address_id: crate::request::merge(u.billing_address_id, it.billing_address_id),
        return_url: crate::request::merge(u.return_url, it.return_url),
        setup_future_usage: crate::request::merge(u.setup_future_usage, it.setup_future_usage),
        order_details: crate::request::merge(u.order_details, it.order_details),
        metadata: crate::request::merge(u.metadata, it.metadata),
        ..it
    }
}

fn apply_attempt_confirm(at: Attempt, u: AttemptConfirmUpdate) -> (r: Attempt)
    ensures
        r == spec_apply_attempt_confirm(at, u),
{
    Attempt {
        amount: u.amount,
        currency: Some(u.currency),
        status: u.status,
        payment_method: crate::request::merge(u.payment_method, at.payment_method),
        authentication_type: crate::request::merge(u.authentication_type, at.authentication_type),
        browser_info: crate::request::merge(u.browser_info, at.browser_info),
        connector: crate::request::merge(u.connector, at.connector),
        payment_token: crate::request::merge(u.payment_token, at.payment_token),
        payment_method_data: crate::request::merge(u.payment_method_data, at.payment_method_data),
        payment_method_type: crate::request::merge(u.payment_method_type, at.payment_method_type),
        payment_experience: crate::request::merge(u.payment_experience, at.payment_experience),
        capture_method: crate::request::merge(u.capture_method, at.capture_method),
        business_sub_label: crate::request::merge(u.business_sub_label, at.business_sub_label),
        straight_through_algorithm: crate::request::merge(
            u.straight_through_algorithm,
            at.straight_through_algorithm,
        ),
        error_code: match u.error_code {
            Some(v) => v,
            None => at.error_code,
        },
        error_message: match u.error_message {
            Some(v) => v,
            None => at.error_message,
        },
        amount_capturable: crate::request::merge(u.amount_capturable, at.amount_capturable),
        ..at
    }
}

fn apply_customer_update(c: Customer, u: CustomerUpdate) -> (r: Customer)
    ensures
        r == spec_apply_customer_update(c, u),
{
    Customer {
        name: crate::request::merge(u.name, c.name),
        email: crate::request::merge(u.email, c.email),
        phone: crate::request::merge(u.phone, c.phone),
        ..c
    }
}

// ---------------------------------------------------------------------------
// Seeding helpers (payment initiation happens outside the Confirm core but
// the store must be able to hold its results)
// ---------------------------------------------------------------------------

pub open spec fn spec_seeded_intent(intent: Intent, attempt_id: u64) -> Intent {
    Intent { active_attempt_id: attempt_id, ..intent }
}

pub open spec fn spec_seeded_attempt(attempt: Attempt, intent: Intent, attempt_id: u64) -> Attempt {
    Attempt {
        attempt_id: attempt_id,
        payment_id: intent.payment_id,
        merchant_id: intent.merchant_id,
        ..attempt
    }
}

// ---------------------------------------------------------------------------
// The store operations
// ---------------------------------------------------------------------------

impl EntityStore {
    /// An empty store.
    pub fn new() -> (r: EntityStore)
        ensures
            store_wf(r@),
            r@.intents.len() == 0,
            r@.attempts.len() == 0,
            r@.addresses.len() == 0,
            r@.customers.len() == 0,
            r@.configs.len() == 0,
            r@.next_id == 0,
    {
        EntityStore {
            intents: Vec::new(),
            attempts: Vec::new(),
            addresses: Vec::new(),
            customers: Vec::new(),
            configs: Vec::new(),
            next_id: 0,
        }
    }

    /// Creates the durable record of a payment at initiation time: the
    /// intent together with its first attempt, linked by a fresh attempt
    /// identifier.
    pub fn insert_intent(&mut self, intent: Intent, attempt: Attempt, _mode: StorageMode) -> (r:
        Result<(Intent, Attempt), StorageError>)
        requires
            store_wf(old(self)@),
            old(self)@.next_id < u64::MAX,
        ensures
            store_wf(final(self)@),
            has_intent(old(self)@.intents, intent.payment_id, intent.merchant_id) ==> r == Err::<
                (Intent, Attempt),
                StorageError,
            >(StorageError::DuplicateValue) && *final(self) == *old(self),
            !has_intent(old(self)@.intents, intent.payment_id, intent.merchant_id) ==> {
                let it2 = spec_seeded_intent(intent, old(self)@.next_id);
                let at2 = spec_seeded_attempt(attempt, intent, old(self)@.next_id);
                &&& r == Ok::<(Intent, Attempt), StorageError>((it2, at2))
                &&& final(self)@.intents == old(self)@.intents.push(it2)
                &&& final(self)@.attempts == old(self)@.attempts.push(at2)
                &&& final(self)@.next_id == old(self)@.next_id + 1
                &&& final(self)@.addresses == old(self)@.addresses
                &&& final(self)@.customers == old(self)@.customers
                &&& final(self)@.configs == old(self)@.configs
            },
    {
        if let Some(_i) = find_intent_idx(&self.intents, intent.payment_id, intent.merchant_id) {
            return Err(StorageError::DuplicateValue);
        }
        let aid = self.next_id;
        let it2 = Intent { active_attempt_id: aid, ..intent };
        let at2 = Attempt {
            attempt_id: aid,
            payment_id: intent.payment_id,
            merchant_id: intent.merchant_id,
            ..attempt
        };
        self.intents.push(it2);
        self.attempts.push(at2);
        self.next_id = self.next_id + 1;
        proof {
            let sv = self@;
            let osv = old(self)@;
            assert forall|i: int| 0 <= i < sv.intents.len() implies has_attempt(
                sv.attempts,
                sv.intents[i].payment_id,
                sv.intents[i].merchant_id,
                sv.intents[i].active_attempt_id,
            ) by {
                if i < osv.intents.len() {
                    let j: int = choose|j: int|
                        0 <= j < osv.attempts.len() && attempt_key_is(
                            osv.attempts[j],
                            osv.intents[i].payment_id,
                            osv.intents[i].merchant_id,
                            osv.intents[i].active_attempt_id,
                        );
                    assert(attempt_key_is(
                        sv.attempts[j],
                        sv.intents[i].payment_id,
                        sv.intents[i].merchant_id,
                        sv.intents[i].active_attempt_id,
                    ));
                } else {
                    assert(attempt_key_is(
                        sv.attempts[sv.attempts.len() - 1],
                        sv.intents[i].payment_id,
                        sv.intents[i].merchant_id,
                        sv.intents[i].active_attempt_id,
                    ));
                }
            }
        }
        Ok((it2, at2))
    }

    /// Entity-store read: the intent at (payment id, merchant id).
    pub fn find_intent(&self, payment_id: u64, merchant_id: u64, _mode: StorageMode) -> (r: Option<
        Intent,
    >)
        requires
            store_wf(self@),
        ensures
            r == if has_intent(self@.intents, payment_id, merchant_id) {
                Some(the_intent(self@.intents, payment_id, merchant_id))
            } else {
                None::<Intent>
            },
    {
        match find_intent_idx(&self.intents, payment_id, merchant_id) {
            Some(i) => {
                proof {
                    lemma_the_intent(self@.intents, payment_id, merchant_id, i as int);
                }
                Some(self.intents[i])
            },
            None => None,
        }
    }

    /// Entity-store read: the attempt at (payment id, merchant id, attempt id).
    pub fn find_attempt(&self, payment_id: u64, merchant_id: u64, attempt_id: u64, _mode: StorageMode) -> (r: Option<Attempt>)
        requires
            store_wf(self@),
        ensures
            r == if has_attempt(self@.attempts, payment_id, merchant_id, attempt_id) {
                Some(the_attempt(self@.attempts, payment_id, merchant_id, attempt_id))
            } else {
                None::<Attempt>
            },
    {
        match find_attempt_idx(&self.attempts, payment_id, merchant_id, attempt_id) {
            Some(i) => {
                proof {
                    lemma_the_attempt(self@.attempts, payment_id, merchant_id, attempt_id, i as int);
                }
                Some(self.attempts[i])
            },
            None => None,
        }
    }

    /// Commits the confirm-time intent patch.  A missing record surfaces as
    /// `ValueNotFound`: the intent vanished between read and write.
    pub fn update_intent(&mut self, payment_id: u64, merchant_id: u64, u: IntentConfirmUpdate, _mode: StorageMode) -> (r: Result<Intent, StorageError>)
        requires
            store_wf(old(self)@),
        ensures
            store_wf(final(self)@),
            final(self)@.attempts == old(self)@.attempts,
            final(self)@.addresses == old(self)@.addresses,
            final(self)@.customers == old(self)@.customers,
            final(self)@.configs == old(self)@.configs,
            final(self)@.next_id == old(self)@.next_id,
            final(self)@.intents.len() == old(self)@.intents.len(),
            forall|i: int|
                0 <= i < old(self)@.intents.len() ==> final(self)@.intents[i] == (
                if intent_key_is(old(self)@.intents[i], payment_id, merchant_id) {
                    spec_apply_intent_confirm(old(self)@.intents[i], u)
                } else {
                    old(self)@.intents[i]
                }),
            r == if has_intent(old(self)@.intents, payment_id, merchant_id) {
                Ok::<Intent, StorageError>(
                    spec_apply_intent_confirm(
                        the_intent(old(self)@.intents, payment_id, merchant_id),
                        u,
                    ),
                )
            } else {
                Err::<Intent, StorageError>(StorageError::ValueNotFound)
            },
    {
        match find_intent_idx(&self.intents, payment_id, merchant_id) {
            None => Err(StorageError::ValueNotFound),
            Some(i) => {
                let it = self.intents[i];
                proof {
                    lemma_the_intent(self@.intents, payment_id, merchant_id, i as int);
                }
                let updated = apply_intent_confirm(it, u);
                self.intents[i] = updated;
                proof {
                    let sv = self@;
                    let osv = old(self)@;
                    assert forall|k: int| 0 <= k < sv.intents.len() implies has_attempt(
                        sv.attempts,
                        sv.intents[k].payment_id,
                        sv.intents[k].merchant_id,
                        sv.intents[k].active_attempt_id,
                    ) by {
                        assert(sv.intents[k].payment_id == osv.intents[k].payment_id
                            && sv.intents[k].merchant_id == osv.intents[k].merchant_id
                            && sv.intents[k].active_attempt_id == osv.intents[k].active_attempt_id);
                    }
                }
                Ok(updated)
            },
        }
    }

    /// Commits the confirm-time attempt patch, keyed like the read.
    pub fn update_attempt(&mut self, payment_id: u64, merchant_id: u64, attempt_id: u64, u: AttemptConfirmUpdate, _mode: StorageMode) -> (r: Result<Attempt, StorageError>)
        requires
            store_wf(old(self)@),
        ensures
            store_wf(final(self)@),
            final(self)@.intents == old(self)@.intents,
            final(self)@.addresses == old(self)@.addresses,
            final(self)@.customers == old(self)@.customers,
            final(self)@.configs == old(self)@.configs,
            final(self)@.next_id == old(self)@.next_id,
            final(self)@.attempts.len() == old(self)@.attempts.len(),
            forall|i: int|
                0 <= i < old(self)@.attempts.len() ==> final(self)@.attempts[i] == (
                if attempt_key_is(old(self)@.attempts[i], payment_id, merchant_id, attempt_id) {
                    spec_apply_attempt_confirm(old(self)@.attempts[i], u)
                } else {
                    old(self)@.attempts[i]
                }),
            r == if has_attempt(old(self)@.attempts, payment_id, merchant_id, attempt_id) {
                Ok::<Attempt, StorageError>(
                    spec_apply_attempt_confirm(
                        the_attempt(old(self)@.attempts, payment_id, merchant_id, attempt_id),
                        u,
                    ),
                )
            } else {
                Err::<Attempt, StorageError>(StorageError::ValueNotFound)
            },
    {
        match find_attempt_idx(&self.attempts, payment_id, merchant_id, attempt_id) {
            None => Err(StorageError::ValueNotFound),
            Some(i) => {
                let at = self.attempts[i];
                proof {
                    lemma_the_attempt(self@.attempts, payment_id, merchant_id, attempt_id, i as int);
                }
                let updated = apply_attempt_confirm(at, u);
                self.attempts[i] = updated;
                proof {
                    let sv = self@;
                    let osv = old(self)@;
                    assert forall|k: int| 0 <= k < sv.intents.len() implies has_attempt(
                        sv.attempts,
                        sv.intents[k].payment_id,
                        sv.intents[k].merchant_id,
                        sv.intents[k].active_attempt_id,
                    ) by {
                        let j: int = choose|j: int|
                            0 <= j < osv.attempts.len() && attempt_key_is(
                                osv.attempts[j],
                                osv.intents[k].payment_id,
                                osv.intents[k].merchant_id,
                                osv.intents[k].active_attempt_id,
                            );
                        assert(attempt_key_is(
                            sv.attempts[j],
                            sv.intents[k].payment_id,
                            sv.intents[k].merchant_id,
                            sv.intents[k].active_attempt_id,
                        ));
                    }
                }
                Ok(updated)
            },
        }
    }

    /// Repoints an intent's active-attempt pointer at an attempt that is
    /// known to exist, as the versioning policy does after inserting a new
    /// attempt.
    pub fn set_active_attempt(&mut self, payment_id: u64, merchant_id: u64, new_attempt_id: u64, _mode: StorageMode) -> (r: Result<Intent, StorageError>)
        requires
            store_wf(old(self)@),
            has_attempt(old(self)@.attempts, payment_id, merchant_id, new_attempt_id),
        ensures
            store_wf(final(self)@),
            final(self)@.attempts == old(self)@.attempts,
            final(self)@.addresses == old(self)@.addresses,
            final(self)@.customers == old(self)@.customers,
            final(self)@.configs == old(self)@.configs,
            final(self)@.next_id == old(self)@.next_id,
            final(self)@.intents.len() == old(self)@.intents.len(),
            forall|i: int|
                0 <= i < old(self)@.intents.len() ==> final(self)@.intents[i] == (
                if intent_key_is(old(self)@.intents[i], payment_id, merchant_id) {
                    Intent { active_attempt_id: new_attempt_id, ..old(self)@.intents[i] }
                } else {
                    old(self)@.intents[i]
                }),
            r == if has_intent(old(self)@.intents, payment_id, merchant_id) {
                Ok::<Intent, StorageError>(
                    Intent {
                        active_attempt_id: new_attempt_id,
                        ..the_intent(old(self)@.intents, payment_id, merchant_id)
                    },
                )
            } else {
                Err::<Intent, StorageError>(StorageError::ValueNotFound)
            },
    {
        match find_intent_idx(&self.intents, payment_id, merchant_id) {
            None => Err(StorageError::ValueNotFound),
            Some(i) => {
                let it = self.intents[i];
                proof {
                    lemma_the_intent(self@.intents, payment_id, merchant_id, i as int);
                }
                let updated = Intent { active_attempt_id: new_attempt_id, ..it };
                self.intents[i] = updated;
                proof {
                    let sv = self@;
                    let osv = old(self)@;
                    assert forall|k: int| 0 <= k < sv.intents.len() implies has_attempt(
                        sv.attempts,
                        sv.intents[k].payment_id,
                        sv.intents[k].merchant_id,
                        sv.intents[k].active_attempt_id,
                    ) by {
                        if k != i {
                            assert(sv.intents[k] == osv.intents[k]);
                        }
                    }
                }
                Ok(updated)
            },
        }
    }

    /// Inserts a fresh attempt with a store-generated identifier; the
    /// versioning policy uses this when the caller asks for a new attempt.
    pub fn insert_new_attempt(&mut self, template: Attempt, _mode: StorageMode) -> (r: Attempt)
        requires
            store_wf(old(self)@),
            old(self)@.next_id < u64::MAX,
        ensures
            store_wf(final(self)@),
            r == (Attempt { attempt_id: old(self)@.next_id, ..template }),
            final(self)@.attempts == old(self)@.attempts.push(r),
            final(self)@.next_id == old(self)@.next_id + 1,
            final(self)@.intents == old(self)@.intents,
            final(self)@.addresses == old(self)@.addresses,
            final(self)@.customers == old(self)@.customers,
            final(self)@.configs == old(self)@.configs,
            !has_attempt_id(old(self)@.attempts, r.attempt_id),
    {
        let at2 = Attempt { attempt_id: self.next_id, ..template };
        self.attempts.push(at2);
        self.next_id = self.next_id + 1;
        proof {
            let sv = self@;
            let osv = old(self)@;
            assert forall|k: int| 0 <= k < sv.intents.len() implies has_attempt(
                sv.attempts,
                sv.intents[k].payment_id,
                sv.intents[k].merchant_id,
                sv.intents[k].active_attempt_id,
            ) by {
                let j: int = choose|j: int|
                    0 <= j < osv.attempts.len() && attempt_key_is(
                        osv.attempts[j],
                        osv.intents[k].payment_id,
                        osv.intents[k].merchant_id,
                        osv.intents[k].active_attempt_id,
                    );
                assert(attempt_key_is(
                    sv.attempts[j],
                    sv.intents[k].payment_id,
                    sv.intents[k].merchant_id,
                    sv.intents[k].active_attempt_id,
                ));
            }
        }
        at2
    }
}

/// Whether some attempt row carries this identifier.
pub open spec fn has_attempt_id(s: Seq<Attempt>, attempt_id: u64) -> bool {
    exists|i: int| 0 <= i < s.len() && s[i].attempt_id == attempt_id
}


// ---------------------------------------------------------------------------
// Address resolution: find-or-create against (merchant id, customer id,
// payload), with the intent's stored address id as fallback
// ---------------------------------------------------------------------------

/// Appends a fresh address row under a store-generated identifier.
pub open spec fn spec_create_address(sv: StoreView, merchant_id: u64, customer_id: Option<u64>, payload: u64) -> (StoreView, Option<Address>) {
    let a = Address {
        address_id: sv.next_id,
        merchant_id: merchant_id,
        customer_id: customer_id,
        payload: payload,
    };
    (
        StoreView { addresses: sv.addresses.push(a), next_id: (sv.next_id + 1) as u64, ..sv },
        Some(a),
    )
}

/// Functional model of address resolution.  A supplied payload is looked up
/// by (merchant id, customer id, payload); a hit is returned as is, a miss
/// falls back to rewriting the row the intent already references, and only
/// failing that is a fresh row created.  Without a supplied payload the
/// stored reference is fetched, if any.
pub open spec fn spec_find_or_create_address(sv: StoreView, request_address: Option<u64>, existing_address_id: Option<u64>, merchant_id: u64, customer_id: Option<u64>) -> (StoreView, Option<Address>) {
    match request_address {
        None => match existing_address_id {
            None => (sv, None),
            Some(aid) => (
                sv,
                if has_addr_id(sv.addresses, aid) {
                    Some(the_addr_by_id(sv.addresses, aid))
                } else {
                    None
                },
            ),
        },
        Some(payload) => if has_addr_key(sv.addresses, merchant_id, customer_id, payload) {
            (sv, Some(the_addr_by_key(sv.addresses, merchant_id, customer_id, payload)))
        } else {
            match existing_address_id {
                Some(aid) => if has_addr_id(sv.addresses, aid) {
                    let i = the_addr_id_idx(sv.addresses, aid);
                    let a2 = Address {
                        address_id: sv.addresses[i].address_id,
                        merchant_id: merchant_id,
                        customer_id: customer_id,
                        payload: payload,
                    };
                    (StoreView { addresses: sv.addresses.update(i, a2), ..sv }, Some(a2))
                } else {
                    spec_create_address(sv, merchant_id, customer_id, payload)
                },
                None => spec_create_address(sv, merchant_id, customer_id, payload),
            }
        },
    }
}

/// Address resolution preserves well-formedness, touches no other entity
/// kind, and, when a payload was supplied, leaves a row matching that
/// payload's key which is exactly the returned address.
pub proof fn lemma_find_or_create_address_wf(sv: StoreView, request_address: Option<u64>, existing_address_id: Option<u64>, merchant_id: u64, customer_id: Option<u64>)
    requires
        store_wf(sv),
        sv.next_id < u64::MAX,
    ensures
        ({
            let (sv2, r) = spec_find_or_create_address(
                sv,
                request_address,
                existing_address_id,
                merchant_id,
                customer_id,
            );
            &&& store_wf(sv2)
            &&& sv2.intents == sv.intents
            &&& sv2.attempts == sv.attempts
            &&& sv2.customers == sv.customers
            &&& sv2.configs == sv.configs
            &&& sv.next_id <= sv2.next_id
            &&& sv.addresses.len() <= sv2.addresses.len() <= sv.addresses.len() + 1
            &&& match request_address {
                Some(payload) => {
                    &&& r is Some
                    &&& has_addr_key(sv2.addresses, merchant_id, customer_id, payload)
                    &&& the_addr_by_key(sv2.addresses, merchant_id, customer_id, payload)
                        == r->0
                },
                None => sv2 == sv,
            }
        }),
{
    match request_address {
        None => {},
        Some(payload) => {
            if has_addr_key(sv.addresses, merchant_id, customer_id, payload) {
            } else {
                let fallback_hit = match existing_address_id {
                    Some(aid) => has_addr_id(sv.addresses, aid),
                    None => false,
                };
                if fallback_hit {
                    let aid = match existing_address_id {
                        Some(aid) => aid,
                        None => 0u64,
                    };
                    let i = the_addr_id_idx(sv.addresses, aid);
                    assert(0 <= i < sv.addresses.len() && sv.addresses[i].address_id == aid);
                    let a2 = Address {
                        address_id: sv.addresses[i].address_id,
                        merchant_id: merchant_id,
                        customer_id: customer_id,
                        payload: payload,
                    };
                    let s2 = sv.addresses.update(i, a2);
                    assert forall|k: int| 0 <= k < s2.len() implies s2[k].address_id
                        == sv.addresses[k].address_id by {}
                    assert(addresses_id_unique(s2));
                    assert(address_ids_bounded(s2, sv.next_id));
                    assert forall|a: int, b: int|
                        0 <= a < s2.len() && 0 <= b < s2.len() && a != b implies !(s2[a].merchant_id
                        == s2[b].merchant_id && s2[a].customer_id == s2[b].customer_id
                        && s2[a].payload == s2[b].payload) by {
                        if a == i {
                            assert(!addr_key_is(sv.addresses[b], merchant_id, customer_id, payload));
                        } else if b == i {
                            assert(!addr_key_is(sv.addresses[a], merchant_id, customer_id, payload));
                        }
                    }
                    lemma_the_addr_by_key(s2, merchant_id, customer_id, payload, i);
                } else {
                    let a = Address {
                        address_id: sv.next_id,
                        merchant_id: merchant_id,
                        customer_id: customer_id,
                        payload: payload,
                    };
                    let s2 = sv.addresses.push(a);
                    let n: int = sv.addresses.len() as int;
                    assert(s2[n] == a);
                    assert forall|k: int| 0 <= k < n implies s2[k] == sv.addresses[k] by {}
                    assert(addresses_id_unique(s2));
                    assert(address_ids_bounded(s2, (sv.next_id + 1) as u64));
                    assert forall|x: int, y: int|
                        0 <= x < s2.len() && 0 <= y < s2.len() && x != y implies !(s2[x].merchant_id
                        == s2[y].merchant_id && s2[x].customer_id == s2[y].customer_id
                        && s2[x].payload == s2[y].payload) by {
                        if x == n {
                            assert(!addr_key_is(sv.addresses[y], merchant_id, customer_id, payload));
                        } else if y == n {
                            assert(!addr_key_is(sv.addresses[x], merchant_id, customer_id, payload));
                        }
                    }
                    lemma_the_addr_by_key(s2, merchant_id, customer_id, payload, n);
                }
            }
        },
    }
}

/// Idempotence of address resolution: resolving the same (merchant id,
/// customer id, payload) twice yields the same address both times, and the
/// second resolution changes nothing — in particular, no duplicate address
/// row is ever created.
pub proof fn lemma_address_resolution_idempotent(sv: StoreView, payload: u64, existing_first: Option<u64>, existing_second: Option<u64>, merchant_id: u64, customer_id: Option<u64>)
    requires
        store_wf(sv),
        sv.next_id < u64::MAX,
    ensures
        ({
            let (sv1, r1) = spec_find_or_create_address(
                sv,
                Some(payload),
                existing_first,
                merchant_id,
                customer_id,
            );
            let (sv2, r2) = spec_find_or_create_address(
                sv1,
                Some(payload),
                existing_second,
                merchant_id,
                customer_id,
            );
            &&& sv2 == sv1
            &&& r2 == r1
        }),
{
    lemma_find_or_create_address_wf(sv, Some(payload), existing_first, merchant_id, customer_id);
}

impl EntityStore {
    /// Resolves a shipping or billing address for a payment: find-or-create
    /// against (merchant id, customer id, payload), falling back to the
    /// address row the intent already references.
    pub fn find_or_create_address(&mut self, request_address: Option<u64>, existing_address_id: Option<u64>, merchant_id: u64, customer_id: Option<u64>, _mode: StorageMode) -> (r: Option<Address>)
        requires
            store_wf(old(self)@),
            old(self)@.next_id < u64::MAX,
        ensures
            store_wf(final(self)@),
            (final(self)@, r) == spec_find_or_create_address(
                old(self)@,
                request_address,
                existing_address_id,
                merchant_id,
                customer_id,
            ),
    {
        proof {
            lemma_find_or_create_address_wf(
                old(self)@,
                request_address,
                existing_address_id,
                merchant_id,
                customer_id,
            );
        }
        match request_address {
            None => match existing_address_id {
                None => None,
                Some(aid) => match find_addr_id_idx(&self.addresses, aid) {
                    Some(i) => {
                        proof {
                            lemma_the_addr_by_id(self@.addresses, aid, i as int);
                        }
                        Some(self.addresses[i])
                    },
                    None => None,
                },
            },
            Some(payload) => {
                if let Some(i) = find_addr_key_idx(&self.addresses, merchant_id, customer_id, payload) {
                    proof {
                        lemma_the_addr_by_key(
                            self@.addresses,
                            merchant_id,
                            customer_id,
                            payload,
                            i as int,
                        );
                    }
                    return Some(self.addresses[i]);
                }
                if let Some(aid) = existing_address_id {
                    if let Some(i) = find_addr_id_idx(&self.addresses, aid) {
                        proof {
                            lemma_the_addr_by_id(self@.addresses, aid, i as int);
                        }
                        let a2 = Address {
                            address_id: self.addresses[i].address_id,
                            merchant_id: merchant_id,
                            customer_id: customer_id,
                            payload: payload,
                        };
                        self.addresses[i] = a2;
                        return Some(a2);
                    }
                }
                let a = Address {
                    address_id: self.next_id,
                    merchant_id: merchant_id,
                    customer_id: customer_id,
                    payload: payload,
                };
                self.addresses.push(a);
                self.next_id = self.next_id + 1;
                Some(a)
            },
        }
    }
}

// ---------------------------------------------------------------------------
// Customers and configuration
// ---------------------------------------------------------------------------

/// Functional model of customer resolution: an existing merchant-scoped
/// customer is returned as is, otherwise one is created from the supplied
/// details.  The boolean says whether a new customer was created.
pub open spec fn spec_find_or_create_customer(sv: StoreView, customer_id: u64, merchant_id: u64, details: crate::request::CustomerDetails) -> (StoreView, Customer, bool) {
    if has_customer(sv.customers, customer_id, merchant_id) {
        (sv, the_customer(sv.customers, customer_id, merchant_id), false)
    } else {
        let c = Customer {
            customer_id: customer_id,
            merchant_id: merchant_id,
            name: details.name,
            email: details.email,
            phone: details.phone,
        };
        (StoreView { customers: sv.customers.push(c), ..sv }, c, true)
    }
}

impl EntityStore {
    /// Resolves or creates the merchant-scoped customer, returning it with
    /// a flag that says whether it was newly created.
    pub fn find_or_create_customer(&mut self, customer_id: u64, merchant_id: u64, details: crate::request::CustomerDetails, _mode: StorageMode) -> (r: (Customer, bool))
        requires
            store_wf(old(self)@),
        ensures
            store_wf(final(self)@),
            (final(self)@, r.0, r.1) == spec_find_or_create_customer(
                old(self)@,
                customer_id,
                merchant_id,
                details,
            ),
    {
        match find_customer_idx(&self.customers, customer_id, merchant_id) {
            Some(i) => {
                proof {
                    lemma_the_customer(self@.customers, customer_id, merchant_id, i as int);
                }
                (self.customers[i], false)
            },
            None => {
                let c = Customer {
                    customer_id: customer_id,
                    merchant_id: merchant_id,
                    name: details.name,
                    email: details.email,
                    phone: details.phone,
                };
                self.customers.push(c);
                proof {
                    let s2 = self@.customers;
                    let n: int = old(self)@.customers.len() as int;
                    assert forall|x: int, y: int|
                        0 <= x < s2.len() && 0 <= y < s2.len() && x != y implies !(s2[x].customer_id
                        == s2[y].customer_id && s2[x].merchant_id == s2[y].merchant_id) by {
                        if x == n {
                            assert(!customer_key_is(old(self)@.customers[y], customer_id, merchant_id));
                        } else if y == n {
                            assert(!customer_key_is(old(self)@.customers[x], customer_id, merchant_id));
                        }
                    }
                }
                (c, true)
            },
        }
    }

    /// Commits a customer patch; a missing record surfaces as
    /// `ValueNotFound`.
    pub fn update_customer(&mut self, customer_id: u64, merchant_id: u64, u: CustomerUpdate, _mode: StorageMode) -> (r: Result<Customer, StorageError>)
        requires
            store_wf(old(self)@),
        ensures
            store_wf(final(self)@),
            final(self)@.intents == old(self)@.intents,
            final(self)@.attempts == old(self)@.attempts,
            final(self)@.addresses == old(self)@.addresses,
            final(self)@.configs == old(self)@.configs,
            final(self)@.next_id == old(self)@.next_id,
            final(self)@.customers.len() == old(self)@.customers.len(),
            forall|i: int|
                0 <= i < old(self)@.customers.len() ==> final(self)@.customers[i] == (
                if customer_key_is(old(self)@.customers[i], customer_id, merchant_id) {
                    spec_apply_customer_update(old(self)@.customers[i], u)
                } else {
                    old(self)@.customers[i]
                }),
            r == if has_customer(old(self)@.customers, customer_id, merchant_id) {
                Ok::<Customer, StorageError>(
                    spec_apply_customer_update(
                        the_customer(old(self)@.customers, customer_id, merchant_id),
                        u,
                    ),
                )
            } else {
                Err::<Customer, StorageError>(StorageError::ValueNotFound)
            },
    {
        match find_customer_idx(&self.customers, customer_id, merchant_id) {
            None => Err(StorageError::ValueNotFound),
            Some(i) => {
                let c = self.customers[i];
                proof {
                    lemma_the_customer(self@.customers, customer_id, merchant_id, i as int);
                }
                let updated = apply_customer_update(c, u);
                self.customers[i] = updated;
                Ok(updated)
            },
        }
    }
}

/// Functional model of the credentials upsert: the row at (merchant id,
/// creds identifier) is overwritten if present, created otherwise.
pub open spec fn spec_upsert_config(sv: StoreView, merchant_id: u64, creds_identifier: u64, value: u64) -> (StoreView, ConfigEntry) {
    let c = ConfigEntry {
        merchant_id: merchant_id,
        creds_identifier: creds_identifier,
        value: value,
    };
    if has_config(sv.configs, merchant_id, creds_identifier) {
        (
            StoreView {
                configs: sv.configs.update(
                    the_config_idx(sv.configs, merchant_id, creds_identifier),
                    c,
                ),
                ..sv
            },
            c,
        )
    } else {
        (StoreView { configs: sv.configs.push(c), ..sv }, c)
    }
}

/// Upserting the same credentials twice commits the same store state as
/// upserting them once: the operation is idempotent, which is what makes a
/// partially applied fetch batch harmless.
pub proof fn lemma_upsert_config_idempotent(sv: StoreView, merchant_id: u64, creds_identifier: u64, value: u64)
    requires
        configs_key_unique(sv.configs),
    ensures
        ({
            let (sv1, c1) = spec_upsert_config(sv, merchant_id, creds_identifier, value);
            let (sv2, c2) = spec_upsert_config(sv1, merchant_id, creds_identifier, value);
            sv2 == sv1 && c2 == c1
        }),
{
    let (sv1, c1) = spec_upsert_config(sv, merchant_id, creds_identifier, value);
    if has_config(sv.configs, merchant_id, creds_identifier) {
        let i = the_config_idx(sv.configs, merchant_id, creds_identifier);
        assert(0 <= i < sv.configs.len() && config_key_is(sv.configs[i], merchant_id, creds_identifier));
        assert forall|x: int, y: int|
            0 <= x < sv1.configs.len() && 0 <= y < sv1.configs.len() && x != y implies !(
        sv1.configs[x].merchant_id == sv1.configs[y].merchant_id
            && sv1.configs[x].creds_identifier == sv1.configs[y].creds_identifier) by {
            assert(sv1.configs[x].merchant_id == sv.configs[x].merchant_id
                && sv1.configs[x].creds_identifier == sv.configs[x].creds_identifier);
            assert(sv1.configs[y].merchant_id == sv.configs[y].merchant_id
                && sv1.configs[y].creds_identifier == sv.configs[y].creds_identifier);
        }
        assert(config_key_is(sv1.configs[i], merchant_id, creds_identifier));
        let j = the_config_idx(sv1.configs, merchant_id, creds_identifier);
        assert(0 <= j < sv1.configs.len() && config_key_is(sv1.configs[j], merchant_id, creds_identifier));
        assert(j == i);
        assert(sv1.configs.update(i, c1) =~= sv1.configs);
        assert(spec_upsert_config(sv1, merchant_id, creds_identifier, value).0 =~= sv1);
    } else {
        let n: int = sv.configs.len() as int;
        assert(config_key_is(sv1.configs[n], merchant_id, creds_identifier));
        assert forall|x: int, y: int|
            0 <= x < sv1.configs.len() && 0 <= y < sv1.configs.len() && x != y implies !(
        sv1.configs[x].merchant_id == sv1.configs[y].merchant_id
            && sv1.configs[x].creds_identifier == sv1.configs[y].creds_identifier) by {
            if x == n {
                assert(!config_key_is(sv.configs[y], merchant_id, creds_identifier));
            } else if y == n {
                assert(!config_key_is(sv.configs[x], merchant_id, creds_identifier));
            }
        }
        let j = the_config_idx(sv1.configs, merchant_id, creds_identifier);
        assert(0 <= j < sv1.configs.len() && config_key_is(sv1.configs[j], merchant_id, creds_identifier));
        assert(j == n);
        assert(sv1.configs.update(n, c1) =~= sv1.configs);
        assert(spec_upsert_config(sv1, merchant_id, creds_identifier, value).0 =~= sv1);
    }
}

impl EntityStore {
    /// Upserts inline merchant-connector credentials under (merchant id,
    /// creds identifier).
    pub fn upsert_config(&mut self, merchant_id: u64, creds_identifier: u64, value: u64, _mode: StorageMode) -> (r: ConfigEntry)
        requires
            store_wf(old(self)@),
        ensures
            store_wf(final(self)@),
            (final(self)@, r) == spec_upsert_config(
                old(self)@,
                merchant_id,
                creds_identifier,
                value,
            ),
    {
        let c = ConfigEntry {
            merchant_id: merchant_id,
            creds_identifier: creds_identifier,
            value: value,
        };
        match find_config_idx(&self.configs, merchant_id, creds_identifier) {
            Some(i) => {
                proof {
                    let s = self@.configs;
                    let j = the_config_idx(s, merchant_id, creds_identifier);
                    assert(has_config(s, merchant_id, creds_identifier));
                    assert(0 <= j < s.len() && config_key_is(s[j], merchant_id, creds_identifier));
                    assert(j == i as int);
                }
                self.configs[i] = c;
                proof {
                    let s2 = self@.configs;
                    let osv = old(self)@;
                    assert forall|x: int, y: int|
                        0 <= x < s2.len() && 0 <= y < s2.len() && x != y implies !(s2[x].merchant_id
                        == s2[y].merchant_id && s2[x].creds_identifier == s2[y].creds_identifier) by {
                        assert(s2[x].merchant_id == osv.configs[x].merchant_id
                            && s2[x].creds_identifier == osv.configs[x].creds_identifier);
                        assert(s2[y].merchant_id == osv.configs[y].merchant_id
                            && s2[y].creds_identifier == osv.configs[y].creds_identifier);
                    }
                }
                c
            },
            None => {
                self.configs.push(c);
                proof {
                    let s2 = self@.configs;
                    let osv = old(self)@;
                    let n: int = osv.configs.len() as int;
                    assert forall|x: int, y: int|
                        0 <= x < s2.len() && 0 <= y < s2.len() && x != y implies !(s2[x].merchant_id
                        == s2[y].merchant_id && s2[x].creds_identifier == s2[y].creds_identifier) by {
                        if x == n {
                            assert(!config_key_is(osv.configs[y], merchant_id, creds_identifier));
                        } else if y == n {
                            assert(!config_key_is(osv.configs[x], merchant_id, creds_identifier));
                        }
                    }
                }
                c
            },
        }
    }
}

} // verus!
