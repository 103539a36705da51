//! The Confirm operation: validate the request, fetch and assemble the
//! working record, decide attempt versioning, enrich with domain data,
//! compute the status transition and commit it.
//!
//! Every stage has a functional model (a spec function over the store
//! view); the executable pipeline is proved to follow the model exactly.
//! The fan-out/join concurrency of the design is modelled by one of its
//! linearizations: batch tasks are independent, the join is fail-fast,
//! and the store serializes all operations, so any serialization commits
//! the same states.

use vstd::prelude::*;
use crate::errors::{ConfirmError, ValidationFault};
use crate::records::{
    payment_method_data_valid, Address, Attempt, Customer, Intent, MerchantAccount,
    PaymentMethodData, StorageMode,
};
use crate::request::{
    spec_merge, CustomerDetails, MandateData, MandateTransactionType, PaymentsRequest,
    ValidateResult,
};
use crate::status::{confirm_blocked, legal_commit_pair, spec_confirm_transition, FrmSuggestion};
use crate::store::{
    attempt_key_is, has_attempt, has_customer, has_intent, intent_key_is, customer_key_is,
    lemma_the_attempt, lemma_the_intent, spec_apply_attempt_confirm, spec_apply_customer_update,
    spec_apply_intent_confirm, spec_find_or_create_address, spec_upsert_config, store_wf,
    the_attempt, the_intent, AttemptConfirmUpdate, CustomerUpdate, EntityStore,
    IntentConfirmUpdate, StoreView,
};
use crate::validate::{
    spec_client_secret_expired, spec_client_secret_mismatch, spec_customer_details_from_request,
    spec_customer_id_missing, spec_fulfillment_time, spec_pm_or_token_missing,
    spec_validate_request,
};
use crate::versioning::{spec_attempt_kind, spec_new_attempt_template, AttemptType};
use crate::enrich::{
    spec_connector_choice, spec_customer_enrichment, spec_resolve_mandate_details,
    spec_resolve_payment_method_data,
};
use crate::working::{PaymentAddress, PaymentData};

verus! {

/// The Confirm operation of the payment pipeline.
#[derive(Clone, Copy, Debug, PartialEq, Eq, Structural)]
pub struct PaymentConfirm;

/// A background-tracker task: what the out-of-scope process tracker is
/// asked to schedule when the caller requested a requeue.
#[derive(Clone, Copy, Debug, PartialEq, Eq, Structural)]
pub struct TrackerTask {
    pub attempt_id: u64,
    pub merchant_id: u64,
    pub schedule_time: Option<u64>,
}

// ---------------------------------------------------------------------------
// Spec-level sequence updates (the store commits these shapes)
// ---------------------------------------------------------------------------

pub open spec fn spec_update_intents_seq(s: Seq<Intent>, payment_id: u64, merchant_id: u64, u: IntentConfirmUpdate) -> Seq<Intent> {
    Seq::new(
        s.len(),
        |i: int|
            if intent_key_is(s[i], payment_id, merchant_id) {
                spec_apply_intent_confirm(s[i], u)
            } else {
                s[i]
            },
    )
}

pub open spec fn spec_update_attempts_seq(s: Seq<Attempt>, payment_id: u64, merchant_id: u64, attempt_id: u64, u: AttemptConfirmUpdate) -> Seq<Attempt> {
    Seq::new(
        s.len(),
        |i: int|
            if attempt_key_is(s[i], payment_id, merchant_id, attempt_id) {
                spec_apply_attempt_confirm(s[i], u)
            } else {
                s[i]
            },
    )
}

pub open spec fn spec_update_customers_seq(s: Seq<Customer>, customer_id: u64, merchant_id: u64, u: CustomerUpdate) -> Seq<Customer> {
    Seq::new(
        s.len(),
        |i: int|
            if customer_key_is(s[i], customer_id, merchant_id) {
                spec_apply_customer_update(s[i], u)
            } else {
                s[i]
            },
    )
}

pub open spec fn spec_set_active_seq(s: Seq<Intent>, payment_id: u64, merchant_id: u64, attempt_id: u64) -> Seq<Intent> {
    Seq::new(
        s.len(),
        |i: int|
            if intent_key_is(s[i], payment_id, merchant_id) {
                Intent { active_attempt_id: attempt_id, ..s[i] }
            } else {
                s[i]
            },
    )
}

// ---------------------------------------------------------------------------
// Functional model of the fetch stage (get_trackers)
// ---------------------------------------------------------------------------

/// The store after the second fetch batch: credentials upsert, then
/// shipping and billing address resolution.  Within the batch the tasks
/// are independent; this is one serialization of them.
pub open spec fn spec_stage2_store(sv: StoreView, it0: Intent, r: PaymentsRequest, cd: CustomerDetails) -> (StoreView, Option<Address>, Option<Address>) {
    let sv1 = match r.merchant_connector_details {
        Some(mcd) => spec_upsert_config(sv, it0.merchant_id, mcd.creds_identifier, mcd.encoded_data).0,
        None => sv,
    };
    let cid = spec_merge(it0.customer_id, cd.customer_id);
    let step_shipping = spec_find_or_create_address(
        sv1,
        r.shipping,
        it0.shipping_address_id,
        it0.merchant_id,
        cid,
    );
    let step_billing = spec_find_or_create_address(
        step_shipping.0,
        r.billing,
        it0.billing_address_id,
        it0.merchant_id,
        cid,
    );
    (step_billing.0, step_shipping.1, step_billing.1)
}

/// The store, working intent and working attempt after the versioning
/// policy ran: either the existing active attempt is reused, or a fresh
/// attempt is inserted and the intent repointed at it.
pub open spec fn spec_versioned(sv: StoreView, sv0: StoreView, it0: Intent, r: PaymentsRequest) -> (StoreView, Intent, Attempt) {
    if spec_attempt_kind(it0.status, r) == AttemptType::New {
        let new_at = Attempt { attempt_id: sv.next_id, ..spec_new_attempt_template(it0) };
        let sv4 = StoreView {
            attempts: sv.attempts.push(new_at),
            next_id: (sv.next_id + 1) as u64,
            ..sv
        };
        let sv5 = StoreView {
            intents: spec_set_active_seq(
                sv4.intents,
                it0.payment_id,
                it0.merchant_id,
                new_at.attempt_id,
            ),
            ..sv4
        };
        (sv5, Intent { active_attempt_id: new_at.attempt_id, ..it0 }, new_at)
    } else {
        (
            sv,
            it0,
            the_attempt(sv0.attempts, it0.payment_id, it0.merchant_id, it0.active_attempt_id),
        )
    }
}

/// Functional model of the fetch stage.  Before the status gate passes,
/// nothing is written; afterwards the second batch commits the
/// credentials upsert, address resolution and, when the policy says so,
/// the new attempt.  The returned working record carries the merged
/// fields: request values win, omitted ones preserve storage.
pub open spec fn spec_get_trackers(sv: StoreView, payment_id: u64, r: PaymentsRequest, mandate_type: Option<MandateTransactionType>, ma: MerchantAccount, now: u64) -> (StoreView, Result<(PaymentData, CustomerDetails), ConfirmError>) {
    let mid = ma.merchant_id;
    if !has_intent(sv.intents, payment_id, mid) {
        (sv, Err(ConfirmError::PaymentNotFound))
    } else {
        let it0 = the_intent(sv.intents, payment_id, mid);
        if confirm_blocked(it0.status) {
            (sv, Err(ConfirmError::NotAllowedInCurrentState))
        } else if spec_client_secret_mismatch(r, it0) {
            (sv, Err(ConfirmError::Validation(ValidationFault::ClientSecretInvalid)))
        } else if spec_client_secret_expired(r, it0, spec_fulfillment_time(ma), now) {
            (sv, Err(ConfirmError::Validation(ValidationFault::ClientSecretExpired)))
        } else {
            let cd = spec_customer_details_from_request(r);
            let res = spec_resolve_mandate_details(r, mandate_type);
            let stage2 = spec_stage2_store(sv, it0, r, cd);
            let sv3 = stage2.0;
            let shipping = stage2.1;
            let billing = stage2.2;
            let versioned = spec_versioned(sv3, sv, it0, r);
            let sv5 = versioned.0;
            let it1 = versioned.1;
            let at1 = versioned.2;
            let it2 = Intent {
                shipping_address_id: match shipping {
                    Some(a) => Some(a.address_id),
                    None => None,
                },
                billing_address_id: match billing {
                    Some(a) => Some(a.address_id),
                    None => None,
                },
                return_url: spec_merge(r.return_url, it1.return_url),
                setup_future_usage: spec_merge(r.setup_future_usage, it1.setup_future_usage),
                order_details: spec_merge(r.order_details, it1.order_details),
                metadata: spec_merge(r.metadata, it1.metadata),
                connector_metadata: spec_merge(r.connector_metadata, it1.connector_metadata),
                feature_metadata: spec_merge(r.feature_metadata, it1.feature_metadata),
                allowed_payment_method_types: spec_merge(
                    r.allowed_payment_method_types,
                    it1.allowed_payment_method_types,
                ),
                ..it1
            };
            let token = spec_merge(res.token, at1.payment_token);
            if !payment_method_data_valid(r.payment_method_data) {
                (sv5, Err(ConfirmError::Validation(ValidationFault::InvalidCardData)))
            } else if spec_pm_or_token_missing(
                res.payment_method,
                r.payment_method_data,
                res.payment_method_type,
                mandate_type,
                token,
            ) {
                (sv5, Err(ConfirmError::Validation(ValidationFault::PaymentMethodOrTokenMissing)))
            } else {
                let at2 = Attempt {
                    payment_method: spec_merge(res.payment_method, at1.payment_method),
                    browser_info: spec_merge(r.browser_info, at1.browser_info),
                    payment_method_type: spec_merge(
                        res.payment_method_type,
                        at1.payment_method_type,
                    ),
                    payment_experience: spec_merge(r.payment_experience, at1.payment_experience),
                    capture_method: spec_merge(r.capture_method, at1.capture_method),
                    business_sub_label: spec_merge(r.business_sub_label, at1.business_sub_label),
                    ..at1
                };
                match at2.currency {
                    None => (sv5, Err(ConfirmError::Validation(ValidationFault::MissingCurrency))),
                    Some(currency) => {
                        if spec_customer_id_missing(
                            r.shipping is Some,
                            r.billing is Some,
                            r.setup_future_usage is Some,
                            spec_merge(it0.customer_id, cd.customer_id),
                        ) {
                            (sv5, Err(ConfirmError::Validation(ValidationFault::MissingCustomerId)))
                        } else {
                            let sm = match res.setup_mandate {
                                Some(m) => Some(
                                    MandateData {
                                        mandate_type: spec_merge(m.mandate_type, at2.mandate_details),
                                        ..m
                                    },
                                ),
                                None => None,
                            };
                            let pd = PaymentData {
                                payment_intent: it2,
                                payment_attempt: at2,
                                currency: currency,
                                amount: at2.amount,
                                email: r.email,
                                mandate_id: None,
                                mandate_connector: res.mandate_connector,
                                setup_mandate: sm,
                                recurring_mandate_payment_data: res.recurring_mandate_payment_data,
                                token: token,
                                address: PaymentAddress { shipping: shipping, billing: billing },
                                confirm: r.confirm,
                                payment_method_data: r.payment_method_data,
                                card_cvc: r.card_cvc,
                                creds_identifier: match r.merchant_connector_details {
                                    Some(m) => Some(m.creds_identifier),
                                    None => None,
                                },
                                frm_message: None,
                                new_customer_created: false,
                            };
                            (sv5, Ok((pd, cd)))
                        }
                    },
                }
            }
        }
    }
}

// ---------------------------------------------------------------------------
// Functional model of the persist stage (update_trackers)
// ---------------------------------------------------------------------------

/// The attempt patch the persist stage commits: the transition's attempt
/// status, the merged working fields, and, on a fraud cancel, the fraud
/// message folded into the error fields.
pub open spec fn spec_attempt_confirm_patch(pd: PaymentData, frm: Option<FrmSuggestion>) -> AttemptConfirmUpdate {
    let errs: (Option<Option<u64>>, Option<Option<u64>>) = if frm == Some(
        FrmSuggestion::FrmCancelTransaction,
    ) {
        match pd.frm_message {
            Some(m) => (Some(Some(m.frm_status)), Some(m.frm_reason)),
            None => (None, None),
        }
    } else {
        (None, None)
    };
    AttemptConfirmUpdate {
        amount: pd.amount,
        currency: pd.currency,
        status: spec_confirm_transition(frm).1,
        payment_method: pd.payment_attempt.payment_method,
        authentication_type: pd.payment_attempt.authentication_type,
        browser_info: pd.payment_attempt.browser_info,
        connector: pd.payment_attempt.connector,
        payment_token: pd.token,
        payment_method_data: pd.payment_method_data,
        payment_method_type: pd.payment_attempt.payment_method_type,
        payment_experience: pd.payment_attempt.payment_experience,
        capture_method: pd.payment_attempt.capture_method,
        business_sub_label: pd.payment_attempt.business_sub_label,
        straight_through_algorithm: pd.payment_attempt.straight_through_algorithm,
        error_code: errs.0,
        error_message: errs.1,
        amount_capturable: Some(pd.payment_attempt.amount),
    }
}

/// The intent patch the persist stage commits.
pub open spec fn spec_intent_confirm_patch(pd: PaymentData, customer: Option<Customer>, frm: Option<FrmSuggestion>) -> IntentConfirmUpdate {
    IntentConfirmUpdate {
        amount: pd.amount,
        currency: pd.currency,
        status: spec_confirm_transition(frm).0,
        customer_id: match customer {
            Some(c) => Some(c.customer_id),
            None => None,
        },
        shipping_address_id: pd.payment_intent.shipping_address_id,
        billing_address_id: pd.payment_intent.billing_address_id,
        return_url: pd.payment_intent.return_url,
        setup_future_usage: pd.payment_intent.setup_future_usage,
        order_details: pd.payment_intent.order_details,
        metadata: pd.payment_intent.metadata,
    }
}

/// Functional model of the persist stage: attempt, intent and customer
/// writes (one serialization of the parallel batch), fail-fast.  A
/// not-found result from any of the three writes means the record
/// vanished between read and write — a benign race — and surfaces as
/// `PaymentNotFound`.
pub open spec fn spec_update_trackers(sv: StoreView, pd: PaymentData, customer: Option<Customer>, updated_customer: Option<CustomerUpdate>, frm: Option<FrmSuggestion>) -> (StoreView, Result<PaymentData, ConfirmError>) {
    let pid = pd.payment_attempt.payment_id;
    let mid = pd.payment_attempt.merchant_id;
    let aid = pd.payment_attempt.attempt_id;
    let au = spec_attempt_confirm_patch(pd, frm);
    let iu = spec_intent_confirm_patch(pd, customer, frm);
    if !has_attempt(sv.attempts, pid, mid, aid) {
        (sv, Err(ConfirmError::PaymentNotFound))
    } else {
        let at3 = spec_apply_attempt_confirm(the_attempt(sv.attempts, pid, mid, aid), au);
        let sv1 = StoreView { attempts: spec_update_attempts_seq(sv.attempts, pid, mid, aid, au), ..sv };
        if !has_intent(sv1.intents, pid, mid) {
            (sv1, Err(ConfirmError::PaymentNotFound))
        } else {
            let it3 = spec_apply_intent_confirm(the_intent(sv1.intents, pid, mid), iu);
            let sv2 = StoreView { intents: spec_update_intents_seq(sv1.intents, pid, mid, iu), ..sv1 };
            let pd2 = PaymentData { payment_intent: it3, payment_attempt: at3, ..pd };
            match (updated_customer, customer) {
                (Some(cu), Some(c)) => if !has_customer(sv2.customers, c.customer_id, mid) {
                    (sv2, Err(ConfirmError::PaymentNotFound))
                } else {
                    let sv3 = StoreView {
                        customers: spec_update_customers_seq(sv2.customers, c.customer_id, mid, cu),
                        ..sv2
                    };
                    (sv3, Ok(pd2))
                },
                _ => (sv2, Ok(pd2)),
            }
        }
    }
}

// ---------------------------------------------------------------------------
// Functional model of the whole Confirm operation
// ---------------------------------------------------------------------------

/// Functional model of the Confirm operation: validation, fetch,
/// customer enrichment, payment-method resolution, connector choice,
/// status transition and persist.
pub open spec fn spec_payment_confirm(sv: StoreView, r: PaymentsRequest, ma: MerchantAccount, frm: Option<FrmSuggestion>, generated_payment_id: u64, now: u64, default_connector: u64) -> (StoreView, Result<PaymentData, ConfirmError>) {
    match spec_validate_request(r, ma, generated_payment_id) {
        Err(e) => (sv, Err(e)),
        Ok(vr) => {
            let fetched = spec_get_trackers(sv, vr.payment_id, r, vr.mandate_type, ma, now);
            let sv1 = fetched.0;
            match fetched.1 {
                Err(e) => (sv1, Err(e)),
                Ok((pd0, cd)) => {
                    let enriched = spec_customer_enrichment(
                        sv1,
                        pd0.payment_intent.customer_id,
                        cd,
                        ma.merchant_id,
                    );
                    let sv2 = enriched.0;
                    let cust = enriched.1;
                    let upd = enriched.2;
                    let created = enriched.3;
                    let pd1 = PaymentData {
                        payment_intent: Intent {
                            customer_id: match cust {
                                Some(c) => Some(c.customer_id),
                                None => pd0.payment_intent.customer_id,
                            },
                            ..pd0.payment_intent
                        },
                        new_customer_created: created,
                        ..pd0
                    };
                    match spec_resolve_payment_method_data(pd1.payment_method_data, pd1.token) {
                        None => (sv2, Err(ConfirmError::PaymentMethodNotFound)),
                        Some(pmd) => {
                            let connector = spec_connector_choice(
                                r.routing,
                                pd1.payment_attempt.connector,
                                default_connector,
                            );
                            let pd2 = PaymentData {
                                payment_attempt: Attempt {
                                    connector: Some(connector),
                                    ..pd1.payment_attempt
                                },
                                payment_method_data: Some(pmd),
                                ..pd1
                            };
                            spec_update_trackers(sv2, pd2, cust, upd, frm)
                        },
                    }
                },
            }
        },
    }
}

// ---------------------------------------------------------------------------
// The executable operation
// ---------------------------------------------------------------------------

impl PaymentConfirm {
    /// The validation stage: pure precondition checks, no I/O.  The caller
    /// supplies a freshly generated payment id to fall back on.
    pub fn validate_request(&self, request: &PaymentsRequest, merchant_account: &MerchantAccount, generated_payment_id: u64) -> (r: Result<ValidateResult, ConfirmError>)
        ensures
            r == spec_validate_request(*request, *merchant_account, generated_payment_id),
    {
        crate::validate::validate_request_core(request, merchant_account, generated_payment_id)
    }

    /// The fetch stage: reads the intent, runs the status gate and the
    /// client-secret checks, resolves mandate details, commits the second
    /// fetch batch (credentials upsert, addresses, attempt versioning) and
    /// assembles the working record with all request overrides merged in.
    #[verifier::rlimit(100)]
    #[verifier::spinoff_prover]
    pub fn get_trackers(&self, store: &mut EntityStore, payment_id: u64, request: &PaymentsRequest, mandate_type: Option<MandateTransactionType>, merchant_account: &MerchantAccount, now: u64) -> (r: Result<(PaymentData, CustomerDetails), ConfirmError>)
        requires
            store_wf(old(store)@),
            old(store)@.next_id <= u64::MAX - 3,
        ensures
            store_wf(final(store)@),
            (final(store)@, r) == spec_get_trackers(
                old(store)@,
                payment_id,
                *request,
                mandate_type,
                *merchant_account,
                now,
            ),
    {
        let ghost sv0 = store@;
        let mode = merchant_account.storage_mode;
        let mid = merchant_account.merchant_id;

        let it0 = match store.find_intent(payment_id, mid, mode) {
            None => {
                return Err(ConfirmError::PaymentNotFound);
            },
            Some(it) => it,
        };
        if crate::status::is_confirm_blocked(it0.status) {
            return Err(ConfirmError::NotAllowedInCurrentState);
        }
        let fulfillment_time = crate::validate::merchant_fulfillment_time(merchant_account);
        match crate::validate::authenticate_client_secret(request, &it0, fulfillment_time, now) {
            Err(e) => {
                return Err(e);
            },
            Ok(()) => {},
        }
        let cd = crate::validate::get_customer_details_from_request(request);
        let res = crate::enrich::resolve_mandate_details(request, mandate_type);

        proof {
            let i = choose|i: int|
                0 <= i < sv0.intents.len() && intent_key_is(sv0.intents[i], payment_id, mid);
            lemma_the_intent(sv0.intents, payment_id, mid, i);
            assert(has_attempt(sv0.attempts, payment_id, mid, it0.active_attempt_id));
        }
        let at_fetched = match store.find_attempt(payment_id, mid, it0.active_attempt_id, mode) {
            Some(a) => a,
            None => {
                proof {
                    assert(false);
                }
                return Err(ConfirmError::PaymentNotFound);
            },
        };

        if let Some(mcd) = request.merchant_connector_details {
            let _cfg = store.upsert_config(mid, mcd.creds_identifier, mcd.encoded_data, mode);
        }
        let cid = crate::request::merge(it0.customer_id, cd.customer_id);
        let shipping = store.find_or_create_address(
            request.shipping,
            it0.shipping_address_id,
            mid,
            cid,
            mode,
        );
        let billing = store.find_or_create_address(
            request.billing,
            it0.billing_address_id,
            mid,
            cid,
            mode,
        );
        let ghost sv3 = store@;
        proof {
            assert((sv3, shipping, billing) == spec_stage2_store(sv0, it0, *request, cd));
        }

        let kind = crate::versioning::get_attempt_type(it0.status, request);
        let (it1, at1) = match kind {
            AttemptType::New => {
                let template = crate::versioning::new_attempt_template(&it0);
                let new_at = store.insert_new_attempt(template, mode);
                proof {
                    let n: int = store@.attempts.len() - 1;
                    assert(attempt_key_is(store@.attempts[n], payment_id, mid, new_at.attempt_id));
                    assert(has_attempt(store@.attempts, payment_id, mid, new_at.attempt_id));
                }
                let it1 = match store.set_active_attempt(payment_id, mid, new_at.attempt_id, mode) {
                    Ok(it) => it,
                    Err(_) => {
                        proof {
                            assert(false);
                        }
                        return Err(ConfirmError::PaymentNotFound);
                    },
                };
                proof {
                    assert(store@.intents =~= spec_set_active_seq(
                        sv3.intents,
                        payment_id,
                        mid,
                        new_at.attempt_id,
                    ));
                }
                (it1, new_at)
            },
            AttemptType::SameOld => (it0, at_fetched),
        };
        proof {
            let versioned = spec_versioned(sv3, sv0, it0, *request);
            assert(store@ =~= versioned.0);
            assert((store@, it1, at1) == versioned);
        }

        let it2 = Intent {
            shipping_address_id: match shipping {
                Some(a) => Some(a.address_id),
                None => None,
            },
            billing_address_id: match billing {
                Some(a) => Some(a.address_id),
                None => None,
            },
            return_url: crate::request::merge(request.return_url, it1.return_url),
            setup_future_usage: crate::request::merge(
                request.setup_future_usage,
                it1.setup_future_usage,
            ),
            order_details: crate::request::merge(request.order_details, it1.order_details),
            metadata: crate::request::merge(request.metadata, it1.metadata),
            connector_metadata: crate::request::merge(
                request.connector_metadata,
                it1.connector_metadata,
            ),
            feature_metadata: crate::request::merge(request.feature_metadata, it1.feature_metadata),
            allowed_payment_method_types: crate::request::merge(
                request.allowed_payment_method_types,
                it1.allowed_payment_method_types,
            ),
            ..it1
        };
        let token = crate::request::merge(res.token, at1.payment_token);
        match crate::validate::validate_card_data(request.payment_method_data) {
            Err(e) => {
                return Err(e);
            },
            Ok(()) => {},
        }
        match crate::validate::validate_pm_or_token_given(
            res.payment_method,
            request.payment_method_data,
            res.payment_method_type,
            mandate_type,
            token,
        ) {
            Err(e) => {
                return Err(e);
            },
            Ok(()) => {},
        }
        let at2 = Attempt {
            payment_method: crate::request::merge(res.payment_method, at1.payment_method),
            browser_info: crate::request::merge(request.browser_info, at1.browser_info),
            payment_method_type: crate::request::merge(
                res.payment_method_type,
                at1.payment_method_type,
            ),
            payment_experience: crate::request::merge(
                request.payment_experience,
                at1.payment_experience,
            ),
            capture_method: crate::request::merge(request.capture_method, at1.capture_method),
            business_sub_label: crate::request::merge(
                request.business_sub_label,
                at1.business_sub_label,
            ),
            ..at1
        };
        let currency = match at2.currency {
            Some(c) => c,
            None => {
                return Err(ConfirmError::Validation(ValidationFault::MissingCurrency));
            },
        };
        match crate::validate::validate_customer_id_mandatory_cases(
            request.shipping.is_some(),
            request.billing.is_some(),
            request.setup_future_usage.is_some(),
            crate::request::merge(it0.customer_id, cd.customer_id),
        ) {
            Err(e) => {
                return Err(e);
            },
            Ok(()) => {},
        }
        let setup_mandate = match res.setup_mandate {
            Some(m) => Some(
                MandateData {
                    mandate_type: crate::request::merge(m.mandate_type, at2.mandate_details),
                    ..m
                },
            ),
            None => None,
        };
        let pd = PaymentData {
            payment_intent: it2,
            payment_attempt: at2,
            currency,
            amount: at2.amount,
            email: request.email,
            mandate_id: None,
            mandate_connector: res.mandate_connector,
            setup_mandate,
            recurring_mandate_payment_data: res.recurring_mandate_payment_data,
            token,
            address: PaymentAddress { shipping, billing },
            confirm: request.confirm,
            payment_method_data: request.payment_method_data,
            card_cvc: request.card_cvc,
            creds_identifier: match request.merchant_connector_details {
                Some(m) => Some(m.creds_identifier),
                None => None,
            },
            frm_message: None,
            new_customer_created: false,
        };
        Ok((pd, cd))
    }

    /// Customer enrichment, delegated to the domain-enrichment stage.
    pub fn get_or_create_customer_details(&self, store: &mut EntityStore, pd: &mut PaymentData, req: CustomerDetails, merchant_id: u64, mode: StorageMode) -> (res: (Option<Customer>, Option<CustomerUpdate>))
        requires
            store_wf(old(store)@),
        ensures
            store_wf(final(store)@),
            ({
                let enriched = spec_customer_enrichment(
                    old(store)@,
                    old(pd).payment_intent.customer_id,
                    req,
                    merchant_id,
                );
                &&& final(store)@ == enriched.0
                &&& res == (enriched.1, enriched.2)
                &&& *final(pd) == (PaymentData {
                    payment_intent: Intent {
                        customer_id: match enriched.1 {
                            Some(cu) => Some(cu.customer_id),
                            None => old(pd).payment_intent.customer_id,
                        },
                        ..old(pd).payment_intent
                    },
                    new_customer_created: enriched.3,
                    ..*old(pd)
                })
            }),
    {
        crate::enrich::get_or_create_customer_details(store, pd, req, merchant_id, mode)
    }

    /// Payment-method resolution: fails with `PaymentMethodNotFound` when
    /// neither supplied data nor a token resolves to anything usable.
    pub fn make_pm_data(&self, pd: &PaymentData) -> (r: Result<PaymentMethodData, ConfirmError>)
        ensures
            r == match spec_resolve_payment_method_data(pd.payment_method_data, pd.token) {
                Some(d) => Ok::<PaymentMethodData, ConfirmError>(d),
                None => Err::<PaymentMethodData, ConfirmError>(ConfirmError::PaymentMethodNotFound),
            },
    {
        match crate::enrich::resolve_payment_method_data(pd.payment_method_data, pd.token) {
            Some(d) => Ok(d),
            None => Err(ConfirmError::PaymentMethodNotFound),
        }
    }

    /// Connector choice: the request override, the previously chosen
    /// connector, or the merchant's default routing outcome, in that
    /// order.  The default is computed by the out-of-scope
    /// connector-selection collaborator and handed in.
    pub fn get_connector(&self, request: &PaymentsRequest, previous: Option<u64>, default_connector: u64) -> (r: u64)
        ensures
            r == spec_connector_choice(request.routing, previous, default_connector),
    {
        crate::enrich::get_connector_choice(request.routing, previous, default_connector)
    }

    /// The background-tracker decision: a requeue request schedules a task
    /// for this attempt; performing the scheduling is the caller's job.
    pub fn add_task_to_process_tracker(&self, attempt: &Attempt, requeue: bool, schedule_time: Option<u64>) -> (r: Option<TrackerTask>)
        ensures
            r == if requeue {
                Some(
                    TrackerTask {
                        attempt_id: attempt.attempt_id,
                        merchant_id: attempt.merchant_id,
                        schedule_time,
                    },
                )
            } else {
                None::<TrackerTask>
            },
    {
        if requeue {
            Some(
                TrackerTask {
                    attempt_id: attempt.attempt_id,
                    merchant_id: attempt.merchant_id,
                    schedule_time,
                },
            )
        } else {
            None
        }
    }

    /// The persist stage: computes the status transition, merges the
    /// working record into the attempt and intent patches, and commits
    /// attempt, intent and (conditionally) customer — fail-fast, with a
    /// vanished record surfacing as `PaymentNotFound`.  On success the
    /// committed (intent, attempt) status pair is exactly the transition's
    /// pair, hence one of the three legal pairs.
    pub fn update_trackers(&self, store: &mut EntityStore, payment_data: PaymentData, customer: Option<Customer>, updated_customer: Option<CustomerUpdate>, frm_suggestion: Option<FrmSuggestion>, mode: StorageMode) -> (r: Result<PaymentData, ConfirmError>)
        requires
            store_wf(old(store)@),
        ensures
            store_wf(final(store)@),
            (final(store)@, r) == spec_update_trackers(
                old(store)@,
                payment_data,
                customer,
                updated_customer,
                frm_suggestion,
            ),
            r is Ok ==> ({
                let pid = payment_data.payment_attempt.payment_id;
                let mid = payment_data.payment_attempt.merchant_id;
                let aid = payment_data.payment_attempt.attempt_id;
                &&& has_intent(final(store)@.intents, pid, mid)
                &&& the_intent(final(store)@.intents, pid, mid).status == spec_confirm_transition(
                    frm_suggestion,
                ).0
                &&& has_attempt(final(store)@.attempts, pid, mid, aid)
                &&& the_attempt(final(store)@.attempts, pid, mid, aid).status
                    == spec_confirm_transition(frm_suggestion).1
                &&& legal_commit_pair(
                    (
                        the_intent(final(store)@.intents, pid, mid).status,
                        the_attempt(final(store)@.attempts, pid, mid, aid).status,
                    ),
                )
            }),
    {
        let ghost sv0 = store@;
        let pid = payment_data.payment_attempt.payment_id;
        let mid = payment_data.payment_attempt.merchant_id;
        let aid = payment_data.payment_attempt.attempt_id;
        let transition = crate::status::confirm_transition(frm_suggestion);
        let errs: (Option<Option<u64>>, Option<Option<u64>>) = if matches!(
            frm_suggestion,
            Some(FrmSuggestion::FrmCancelTransaction),
        ) {
            match payment_data.frm_message {
                Some(m) => (Some(Some(m.frm_status)), Some(m.frm_reason)),
                None => (None, None),
            }
        } else {
            (None, None)
        };
        let au = AttemptConfirmUpdate {
            amount: payment_data.amount,
            currency: payment_data.currency,
            status: transition.1,
            payment_method: payment_data.payment_attempt.payment_method,
            authentication_type: payment_data.payment_attempt.authentication_type,
            browser_info: payment_data.payment_attempt.browser_info,
            connector: payment_data.payment_attempt.connector,
            payment_token: payment_data.token,
            payment_method_data: payment_data.payment_method_data,
            payment_method_type: payment_data.payment_attempt.payment_method_type,
            payment_experience: payment_data.payment_attempt.payment_experience,
            capture_method: payment_data.payment_attempt.capture_method,
            business_sub_label: payment_data.payment_attempt.business_sub_label,
            straight_through_algorithm: payment_data.payment_attempt.straight_through_algorithm,
            error_code: errs.0,
            error_message: errs.1,
            amount_capturable: Some(payment_data.payment_attempt.amount),
        };
        proof {
            assert(au == spec_attempt_confirm_patch(payment_data, frm_suggestion));
        }
        let at3 = match store.update_attempt(pid, mid, aid, au, mode) {
            Err(_) => {
                proof {
                    assert forall|i: int| 0 <= i < sv0.attempts.len() implies store@.attempts[i]
                        == sv0.attempts[i] by {
                        assert(!attempt_key_is(sv0.attempts[i], pid, mid, aid));
                    }
                    assert(store@.attempts =~= sv0.attempts);
                }
                return Err(ConfirmError::PaymentNotFound);
            },
            Ok(a) => a,
        };
        proof {
            assert(store@.attempts =~= spec_update_attempts_seq(sv0.attempts, pid, mid, aid, au));
        }
        let ghost sv1 = StoreView {
            attempts: spec_update_attempts_seq(sv0.attempts, pid, mid, aid, au),
            ..sv0
        };
        proof {
            assert(store@ == sv1);
        }
        let iu = IntentConfirmUpdate {
            amount: payment_data.amount,
            currency: payment_data.currency,
            status: transition.0,
            customer_id: match customer {
                Some(c) => Some(c.customer_id),
                None => None,
            },
            shipping_address_id: payment_data.payment_intent.shipping_address_id,
            billing_address_id: payment_data.payment_intent.billing_address_id,
            return_url: payment_data.payment_intent.return_url,
            setup_future_usage: payment_data.payment_intent.setup_future_usage,
            order_details: payment_data.payment_intent.order_details,
            metadata: payment_data.payment_intent.metadata,
        };
        proof {
            assert(iu == spec_intent_confirm_patch(payment_data, customer, frm_suggestion));
        }
        let it3 = match store.update_intent(pid, mid, iu, mode) {
            Err(_) => {
                proof {
                    assert forall|i: int| 0 <= i < sv1.intents.len() implies store@.intents[i]
                        == sv1.intents[i] by {
                        assert(!intent_key_is(sv1.intents[i], pid, mid));
                    }
                    assert(store@.intents =~= sv1.intents);
                    assert(store@ == sv1);
                }
                return Err(ConfirmError::PaymentNotFound);
            },
            Ok(it) => it,
        };
        proof {
            assert(store@.intents =~= spec_update_intents_seq(sv1.intents, pid, mid, iu));
        }
        let ghost sv2 = StoreView {
            intents: spec_update_intents_seq(sv1.intents, pid, mid, iu),
            ..sv1
        };
        proof {
            assert(store@ == sv2);
        }
        let pd2 = PaymentData {
            payment_intent: it3,
            payment_attempt: at3,
            ..payment_data
        };
        let wrote_customer: bool = match (updated_customer, customer) {
            (Some(cu), Some(c)) => {
                match store.update_customer(c.customer_id, mid, cu, mode) {
                    Err(_) => {
                        proof {
                            assert forall|i: int| 0 <= i < sv2.customers.len() implies
                                store@.customers[i] == sv2.customers[i] by {
                                assert(!customer_key_is(sv2.customers[i], c.customer_id, mid));
                            }
                            assert(store@.customers =~= sv2.customers);
                            assert(store@ == sv2);
                        }
                        return Err(ConfirmError::PaymentNotFound);
                    },
                    Ok(_) => {
                        proof {
                            assert(store@.customers =~= spec_update_customers_seq(
                                sv2.customers,
                                c.customer_id,
                                mid,
                                cu,
                            ));
                            assert(store@ == (StoreView {
                                customers: spec_update_customers_seq(
                                    sv2.customers,
                                    c.customer_id,
                                    mid,
                                    cu,
                                ),
                                ..sv2
                            }));
                        }
                        true
                    },
                }
            },
            _ => false,
        };
        proof {
            if !wrote_customer {
                assert(store@ == sv2);
            }
            let i = choose|i: int|
                0 <= i < sv1.intents.len() && intent_key_is(sv1.intents[i], pid, mid);
            assert(intent_key_is(store@.intents[i], pid, mid));
            lemma_the_intent(store@.intents, pid, mid, i);
            assert(the_intent(store@.intents, pid, mid).status == spec_confirm_transition(
                frm_suggestion,
            ).0);
            let j = choose|j: int|
                0 <= j < sv0.attempts.len() && attempt_key_is(sv0.attempts[j], pid, mid, aid);
            assert(attempt_key_is(store@.attempts[j], pid, mid, aid));
            lemma_the_attempt(store@.attempts, pid, mid, aid, j);
            assert(the_attempt(store@.attempts, pid, mid, aid).status == spec_confirm_transition(
                frm_suggestion,
            ).1);
            crate::status::lemma_confirm_transition_legal(frm_suggestion);
        }
        Ok(pd2)
    }
}

/// The Confirm operation end to end: validate, fetch, enrich, resolve the
/// payment method, choose the connector, compute the transition and
/// persist.  The caller supplies what the out-of-scope collaborators
/// produce: a freshly generated payment id, the current time, the fraud
/// suggestion for this payment and the default routing outcome.
pub fn payment_confirm_core(store: &mut EntityStore, request: &PaymentsRequest, merchant_account: &MerchantAccount, frm_suggestion: Option<FrmSuggestion>, generated_payment_id: u64, now: u64, default_connector: u64) -> (r: Result<PaymentData, ConfirmError>)
    requires
        store_wf(old(store)@),
        old(store)@.next_id <= u64::MAX - 3,
    ensures
        store_wf(final(store)@),
        (final(store)@, r) == spec_payment_confirm(
            old(store)@,
            *request,
            *merchant_account,
            frm_suggestion,
            generated_payment_id,
            now,
            default_connector,
        ),
{
    let op = PaymentConfirm;
    let vr = match op.validate_request(request, merchant_account, generated_payment_id) {
        Err(e) => {
            return Err(e);
        },
        Ok(v) => v,
    };
    let fetched = op.get_trackers(
        store,
        vr.payment_id,
        request,
        vr.mandate_type,
        merchant_account,
        now,
    );
    let (mut pd, cd) = match fetched {
        Err(e) => {
            return Err(e);
        },
        Ok(x) => x,
    };
    let (cust, upd) = op.get_or_create_customer_details(
        store,
        &mut pd,
        cd,
        merchant_account.merchant_id,
        merchant_account.storage_mode,
    );
    let pmd = match op.make_pm_data(&pd) {
        Err(e) => {
            return Err(e);
        },
        Ok(d) => d,
    };
    pd.payment_method_data = Some(pmd);
    let connector = op.get_connector(request, pd.payment_attempt.connector, default_connector);
    pd.payment_attempt.connector = Some(connector);
    op.update_trackers(store, pd, cust, upd, frm_suggestion, merchant_account.storage_mode)
}

} // verus!
