//! The laws of the Confirm operation, stated over its functional model.
//!
//! The executable pipeline is proved equal to the model in [`crate::confirm`],
//! so whatever holds of the model holds of the code.

use vstd::prelude::*;
use crate::confirm::{
    spec_attempt_confirm_patch, spec_get_trackers, spec_intent_confirm_patch,
    spec_payment_confirm, spec_set_active_seq, spec_stage2_store, spec_update_attempts_seq,
    spec_update_customers_seq, spec_update_intents_seq, spec_update_trackers, spec_versioned,
};
use crate::enrich::{spec_customer_enrichment, spec_resolve_mandate_details};
use crate::errors::ConfirmError;
use crate::records::{Attempt, Customer, Intent, MerchantAccount};
use crate::request::{CustomerDetails, MandateData, PaymentsRequest, spec_merge};
use crate::status::{
    awaiting_earlier_attempt, confirm_blocked, legal_commit_pair, lemma_confirm_transition_legal,
    spec_confirm_transition, FrmSuggestion, IntentStatus,
};
use crate::store::{
    attempt_key_is, customer_key_is, has_attempt, has_attempt_id, has_customer, has_intent,
    intent_key_is, lemma_find_or_create_address_wf, lemma_the_attempt, lemma_the_intent,
    spec_apply_attempt_confirm, spec_apply_intent_confirm, spec_find_or_create_address,
    spec_upsert_config, store_wf, the_attempt, the_config_idx, the_intent, config_key_is,
    has_config, StoreView, CustomerUpdate,
};
use crate::validate::{spec_resolved_payment_id, spec_validate_request};
use crate::versioning::{spec_attempt_kind, AttemptType};
use crate::working::PaymentData;
use crate::request::RetryAction;

verus! {

// ---------------------------------------------------------------------------
// Well-formedness is preserved by every model step
// ---------------------------------------------------------------------------

/// The credentials upsert preserves well-formedness and touches only the
/// config rows.
pub proof fn lemma_upsert_config_wf(sv: StoreView, merchant_id: u64, creds_identifier: u64, value: u64)
    requires
        store_wf(sv),
    ensures
        ({
            let sv2 = spec_upsert_config(sv, merchant_id, creds_identifier, value).0;
            &&& store_wf(sv2)
            &&& sv2.intents == sv.intents
            &&& sv2.attempts == sv.attempts
            &&& sv2.addresses == sv.addresses
            &&& sv2.customers == sv.customers
            &&& sv2.next_id == sv.next_id
        }),
{
    let sv2 = spec_upsert_config(sv, merchant_id, creds_identifier, value).0;
    if has_config(sv.configs, merchant_id, creds_identifier) {
        let i = the_config_idx(sv.configs, merchant_id, creds_identifier);
        assert(0 <= i < sv.configs.len() && config_key_is(sv.configs[i], merchant_id, creds_identifier));
        assert forall|x: int, y: int|
            0 <= x < sv2.configs.len() && 0 <= y < sv2.configs.len() && x != y implies !(
        sv2.configs[x].merchant_id == sv2.configs[y].merchant_id && sv2.configs[x].creds_identifier
            == sv2.configs[y].creds_identifier) by {
            assert(sv2.configs[x].merchant_id == sv.configs[x].merchant_id
                && sv2.configs[x].creds_identifier == sv.configs[x].creds_identifier);
            assert(sv2.configs[y].merchant_id == sv.configs[y].merchant_id
                && sv2.configs[y].creds_identifier == sv.configs[y].creds_identifier);
        }
    } else {
        let n: int = sv.configs.len() as int;
        assert forall|x: int, y: int|
            0 <= x < sv2.configs.len() && 0 <= y < sv2.configs.len() && x != y implies !(
        sv2.configs[x].merchant_id == sv2.configs[y].merchant_id && sv2.configs[x].creds_identifier
            == sv2.configs[y].creds_identifier) by {
            if x == n {
                assert(!config_key_is(sv.configs[y], merchant_id, creds_identifier));
            } else if y == n {
                assert(!config_key_is(sv.configs[x], merchant_id, creds_identifier));
            }
        }
    }
}

/// Customer enrichment preserves well-formedness and touches only the
/// customer rows.
pub proof fn lemma_customer_enrichment_wf(sv: StoreView, intent_customer_id: Option<u64>, req: CustomerDetails, merchant_id: u64)
    requires
        store_wf(sv),
    ensures
        ({
            let sv2 = spec_customer_enrichment(sv, intent_customer_id, req, merchant_id).0;
            &&& store_wf(sv2)
            &&& sv2.intents == sv.intents
            &&& sv2.attempts == sv.attempts
            &&& sv2.addresses == sv.addresses
            &&& sv2.configs == sv.configs
            &&& sv2.next_id == sv.next_id
        }),
{
    let sv2 = spec_customer_enrichment(sv, intent_customer_id, req, merchant_id).0;
    match spec_merge(req.customer_id, intent_customer_id) {
        None => {},
        Some(cid) => {
            if has_customer(sv.customers, cid, merchant_id) {
            } else {
                let n: int = sv.customers.len() as int;
                assert forall|x: int, y: int|
                    0 <= x < sv2.customers.len() && 0 <= y < sv2.customers.len() && x != y implies !(
                sv2.customers[x].customer_id == sv2.customers[y].customer_id
                    && sv2.customers[x].merchant_id == sv2.customers[y].merchant_id) by {
                    if x == n {
                        assert(!customer_key_is(sv.customers[y], cid, merchant_id));
                    } else if y == n {
                        assert(!customer_key_is(sv.customers[x], cid, merchant_id));
                    }
                }
            }
        },
    }
}

/// The versioning step preserves well-formedness; the working intent ends
/// up pointing at the working attempt, which exists in the store; a new
/// attempt's identifier is fresh.
pub proof fn lemma_versioned_wf(sv3: StoreView, sv0: StoreView, it0: Intent, r: PaymentsRequest)
    requires
        store_wf(sv3),
        sv3.next_id < u64::MAX,
        sv3.next_id >= sv0.next_id,
        sv3.attempts == sv0.attempts,
        sv3.intents == sv0.intents,
        has_intent(sv3.intents, it0.payment_id, it0.merchant_id),
        the_intent(sv3.intents, it0.payment_id, it0.merchant_id) == it0,
    ensures
        ({
            let (sv5, it1, at1) = spec_versioned(sv3, sv0, it0, r);
            &&& store_wf(sv5)
            &&& sv5.next_id <= sv3.next_id + 1
            &&& sv5.addresses == sv3.addresses
            &&& sv5.customers == sv3.customers
            &&& sv5.configs == sv3.configs
            &&& at1.payment_id == it0.payment_id
            &&& at1.merchant_id == it0.merchant_id
            &&& it1 == (Intent { active_attempt_id: at1.attempt_id, ..it0 })
            &&& has_intent(sv5.intents, it0.payment_id, it0.merchant_id)
            &&& the_intent(sv5.intents, it0.payment_id, it0.merchant_id) == it1
            &&& has_attempt(sv5.attempts, it0.payment_id, it0.merchant_id, at1.attempt_id)
            &&& the_attempt(sv5.attempts, it0.payment_id, it0.merchant_id, at1.attempt_id) == at1
            &&& spec_attempt_kind(it0.status, r) == AttemptType::SameOld ==> at1.attempt_id
                == it0.active_attempt_id && sv5 == sv3
            &&& spec_attempt_kind(it0.status, r) == AttemptType::New ==> at1.attempt_id
                != it0.active_attempt_id && !has_attempt_id(sv0.attempts, at1.attempt_id)
        }),
{
    let (sv5, it1, at1) = spec_versioned(sv3, sv0, it0, r);
    let pid = it0.payment_id;
    let mid = it0.merchant_id;
    let i = choose|i: int| 0 <= i < sv3.intents.len() && intent_key_is(sv3.intents[i], pid, mid);
    lemma_the_intent(sv3.intents, pid, mid, i);
    if spec_attempt_kind(it0.status, r) == AttemptType::New {
        let new_at = Attempt {
            attempt_id: sv3.next_id,
            ..crate::versioning::spec_new_attempt_template(it0)
        };
        let atts = sv3.attempts.push(new_at);
        let n: int = sv3.attempts.len() as int;
        assert(atts[n] == new_at);
        assert(crate::store::attempts_id_unique(atts));
        assert(crate::store::attempt_ids_bounded(atts, (sv3.next_id + 1) as u64));
        let ints = spec_set_active_seq(sv3.intents, pid, mid, new_at.attempt_id);
        assert forall|k: int| 0 <= k < ints.len() implies ints[k].payment_id
            == sv3.intents[k].payment_id && ints[k].merchant_id == sv3.intents[k].merchant_id by {}
        assert(crate::store::intents_key_unique(ints));
        assert forall|k: int| 0 <= k < ints.len() implies has_attempt(
            atts,
            ints[k].payment_id,
            ints[k].merchant_id,
            ints[k].active_attempt_id,
        ) by {
            if intent_key_is(sv3.intents[k], pid, mid) {
                assert(attempt_key_is(atts[n], ints[k].payment_id, ints[k].merchant_id, ints[k].active_attempt_id));
            } else {
                let j = choose|j: int|
                    0 <= j < sv3.attempts.len() && attempt_key_is(
                        sv3.attempts[j],
                        sv3.intents[k].payment_id,
                        sv3.intents[k].merchant_id,
                        sv3.intents[k].active_attempt_id,
                    );
                assert(attempt_key_is(atts[j], ints[k].payment_id, ints[k].merchant_id, ints[k].active_attempt_id));
            }
        }
        assert(intent_key_is(ints[i], pid, mid));
        lemma_the_intent(ints, pid, mid, i);
        assert(the_intent(ints, pid, mid) == ints[i]);
        assert(ints[i] == (Intent { active_attempt_id: new_at.attempt_id, ..it0 }));
        assert(attempt_key_is(atts[n], pid, mid, new_at.attempt_id));
        lemma_the_attempt(atts, pid, mid, new_at.attempt_id, n);
        // the old active attempt exists, so its identifier is below the
        // fresh counter and differs from the new one
        let j0 = choose|j: int|
            0 <= j < sv0.attempts.len() && attempt_key_is(
                sv0.attempts[j],
                pid,
                mid,
                it0.active_attempt_id,
            );
        assert(sv0.attempts[j0].attempt_id == it0.active_attempt_id);
        assert(it0.active_attempt_id < sv3.next_id);
        assert forall|j: int| 0 <= j < sv0.attempts.len() implies sv0.attempts[j].attempt_id
            != new_at.attempt_id by {}
    } else {
        assert(sv3.intents[i] == it0);
        assert(has_attempt(sv3.attempts, sv3.intents[i].payment_id, sv3.intents[i].merchant_id, sv3.intents[i].active_attempt_id));
        assert(has_attempt(sv0.attempts, pid, mid, it0.active_attempt_id));
        let j = choose|j: int|
            0 <= j < sv0.attempts.len() && attempt_key_is(
                sv0.attempts[j],
                pid,
                mid,
                it0.active_attempt_id,
            );
        lemma_the_attempt(sv0.attempts, pid, mid, it0.active_attempt_id, j);
    }
}

/// The fetch stage preserves well-formedness and bounds the fresh-id
/// advance; on success the working record is keyed like the intent, the
/// stored intent points at the working attempt, its status is untouched,
/// and the attempt identifier obeys the versioning policy.
pub proof fn lemma_get_trackers_wf(sv: StoreView, payment_id: u64, r: PaymentsRequest, mandate_type: Option<crate::request::MandateTransactionType>, ma: MerchantAccount, now: u64)
    requires
        store_wf(sv),
        sv.next_id <= u64::MAX - 3,
    ensures
        ({
            let (sv1, res) = spec_get_trackers(sv, payment_id, r, mandate_type, ma, now);
            &&& store_wf(sv1)
            &&& sv.next_id <= sv1.next_id <= sv.next_id + 3
            &&& res is Ok ==> ({
                let pd = res->Ok_0.0;
                let it0 = the_intent(sv.intents, payment_id, ma.merchant_id);
                &&& pd.payment_attempt.payment_id == payment_id
                &&& pd.payment_attempt.merchant_id == ma.merchant_id
                &&& pd.payment_intent.payment_id == payment_id
                &&& pd.payment_intent.merchant_id == ma.merchant_id
                &&& has_intent(sv1.intents, payment_id, ma.merchant_id)
                &&& the_intent(sv1.intents, payment_id, ma.merchant_id).active_attempt_id
                    == pd.payment_attempt.attempt_id
                &&& the_intent(sv1.intents, payment_id, ma.merchant_id).status == it0.status
                &&& has_attempt(sv1.attempts, payment_id, ma.merchant_id, pd.payment_attempt.attempt_id)
                &&& the_intent(sv1.intents, payment_id, ma.merchant_id) == (Intent {
                    active_attempt_id: pd.payment_attempt.attempt_id,
                    ..it0
                })
                &&& pd.payment_intent.metadata == spec_merge(r.metadata, it0.metadata)
                &&& pd.payment_intent.return_url == spec_merge(r.return_url, it0.return_url)
                &&& pd.payment_intent.setup_future_usage == spec_merge(
                    r.setup_future_usage,
                    it0.setup_future_usage,
                )
                &&& pd.payment_intent.order_details == spec_merge(
                    r.order_details,
                    it0.order_details,
                )
                &&& ({
                    let at1 = the_attempt(
                        sv1.attempts,
                        payment_id,
                        ma.merchant_id,
                        pd.payment_attempt.attempt_id,
                    );
                    &&& pd.payment_attempt.browser_info == spec_merge(
                        r.browser_info,
                        at1.browser_info,
                    )
                    &&& pd.payment_attempt.payment_experience == spec_merge(
                        r.payment_experience,
                        at1.payment_experience,
                    )
                    &&& pd.payment_attempt.capture_method == spec_merge(
                        r.capture_method,
                        at1.capture_method,
                    )
                    &&& pd.payment_attempt.business_sub_label == spec_merge(
                        r.business_sub_label,
                        at1.business_sub_label,
                    )
                    &&& pd.setup_mandate == (match spec_resolve_mandate_details(
                        r,
                        mandate_type,
                    ).setup_mandate {
                        Some(m) => Some(
                            MandateData {
                                mandate_type: spec_merge(m.mandate_type, at1.mandate_details),
                                ..m
                            },
                        ),
                        None => None,
                    })
                })
                &&& spec_attempt_kind(it0.status, r) == AttemptType::SameOld
                    ==> pd.payment_attempt.attempt_id == it0.active_attempt_id
                        && sv1.attempts == sv.attempts
                &&& spec_attempt_kind(it0.status, r) == AttemptType::New
                    ==> pd.payment_attempt.attempt_id != it0.active_attempt_id
                        && !has_attempt_id(sv.attempts, pd.payment_attempt.attempt_id)
            })
        }),
{
    let mid = ma.merchant_id;
    if !has_intent(sv.intents, payment_id, mid) {
    } else {
        let it0 = the_intent(sv.intents, payment_id, mid);
        let i = choose|i: int|
            0 <= i < sv.intents.len() && intent_key_is(sv.intents[i], payment_id, mid);
        lemma_the_intent(sv.intents, payment_id, mid, i);
        if confirm_blocked(it0.status) {
        } else if crate::validate::spec_client_secret_mismatch(r, it0) {
        } else if crate::validate::spec_client_secret_expired(
            r,
            it0,
            crate::validate::spec_fulfillment_time(ma),
            now,
        ) {
        } else {
            let cd = crate::validate::spec_customer_details_from_request(r);
            let sv_cfg = match r.merchant_connector_details {
                Some(mcd) => spec_upsert_config(sv, it0.merchant_id, mcd.creds_identifier, mcd.encoded_data).0,
                None => sv,
            };
            if r.merchant_connector_details is Some {
                let mcd = r.merchant_connector_details->0;
                lemma_upsert_config_wf(sv, it0.merchant_id, mcd.creds_identifier, mcd.encoded_data);
            }
            let cid = spec_merge(it0.customer_id, cd.customer_id);
            lemma_find_or_create_address_wf(sv_cfg, r.shipping, it0.shipping_address_id, it0.merchant_id, cid);
            let step_shipping = spec_find_or_create_address(
                sv_cfg,
                r.shipping,
                it0.shipping_address_id,
                it0.merchant_id,
                cid,
            );
            lemma_find_or_create_address_wf(
                step_shipping.0,
                r.billing,
                it0.billing_address_id,
                it0.merchant_id,
                cid,
            );
            let step_billing = spec_find_or_create_address(
                step_shipping.0,
                r.billing,
                it0.billing_address_id,
                it0.merchant_id,
                cid,
            );
            let sv3 = step_billing.0;
            assert(sv3 == spec_stage2_store(sv, it0, r, cd).0);
            assert(sv3.intents == sv.intents && sv3.attempts == sv.attempts);
            lemma_versioned_wf(sv3, sv, it0, r);
        }
    }
}

/// The persist stage preserves well-formedness and never allocates; on
/// success the stored intent and attempt at the working record's key carry
/// exactly the transition's status pair, and the intent still points at
/// the attempt it pointed at before the write.
pub proof fn lemma_update_trackers_wf(sv: StoreView, pd: PaymentData, customer: Option<Customer>, updated_customer: Option<CustomerUpdate>, frm: Option<FrmSuggestion>)
    requires
        store_wf(sv),
    ensures
        ({
            let (sv2, res) = spec_update_trackers(sv, pd, customer, updated_customer, frm);
            let pid = pd.payment_attempt.payment_id;
            let mid = pd.payment_attempt.merchant_id;
            let aid = pd.payment_attempt.attempt_id;
            &&& store_wf(sv2)
            &&& sv2.next_id == sv.next_id
            &&& res is Ok ==> ({
                &&& has_intent(sv2.intents, pid, mid)
                &&& the_intent(sv2.intents, pid, mid) == spec_apply_intent_confirm(
                    the_intent(sv.intents, pid, mid),
                    spec_intent_confirm_patch(pd, customer, frm),
                )
                &&& the_attempt(sv2.attempts, pid, mid, aid) == spec_apply_attempt_confirm(
                    the_attempt(sv.attempts, pid, mid, aid),
                    spec_attempt_confirm_patch(pd, frm),
                )
                &&& the_intent(sv2.intents, pid, mid).status == spec_confirm_transition(frm).0
                &&& the_intent(sv2.intents, pid, mid).active_attempt_id == the_intent(
                    sv.intents,
                    pid,
                    mid,
                ).active_attempt_id
                &&& has_attempt(sv2.attempts, pid, mid, aid)
                &&& the_attempt(sv2.attempts, pid, mid, aid).status == spec_confirm_transition(
                    frm,
                ).1
                &&& legal_commit_pair(
                    (
                        the_intent(sv2.intents, pid, mid).status,
                        the_attempt(sv2.attempts, pid, mid, aid).status,
                    ),
                )
            })
        }),
{
    let (sv2, res) = spec_update_trackers(sv, pd, customer, updated_customer, frm);
    let pid = pd.payment_attempt.payment_id;
    let mid = pd.payment_attempt.merchant_id;
    let aid = pd.payment_attempt.attempt_id;
    let au = spec_attempt_confirm_patch(pd, frm);
    let iu = spec_intent_confirm_patch(pd, customer, frm);
    if !has_attempt(sv.attempts, pid, mid, aid) {
    } else {
        let atts = spec_update_attempts_seq(sv.attempts, pid, mid, aid, au);
        assert forall|k: int| 0 <= k < atts.len() implies atts[k].payment_id
            == sv.attempts[k].payment_id && atts[k].merchant_id == sv.attempts[k].merchant_id
            && atts[k].attempt_id == sv.attempts[k].attempt_id by {}
        let svA = StoreView { attempts: atts, ..sv };
        assert(crate::store::attempts_id_unique(atts));
        assert(crate::store::attempt_ids_bounded(atts, sv.next_id));
        assert forall|k: int| 0 <= k < svA.intents.len() implies has_attempt(
            atts,
            svA.intents[k].payment_id,
            svA.intents[k].merchant_id,
            svA.intents[k].active_attempt_id,
        ) by {
            let j = choose|j: int|
                0 <= j < sv.attempts.len() && attempt_key_is(
                    sv.attempts[j],
                    sv.intents[k].payment_id,
                    sv.intents[k].merchant_id,
                    sv.intents[k].active_attempt_id,
                );
            assert(attempt_key_is(atts[j], svA.intents[k].payment_id, svA.intents[k].merchant_id, svA.intents[k].active_attempt_id));
        }
        assert(store_wf(svA));
        if !has_intent(svA.intents, pid, mid) {
        } else {
            let ints = spec_update_intents_seq(svA.intents, pid, mid, iu);
            assert forall|k: int| 0 <= k < ints.len() implies ints[k].payment_id
                == sv.intents[k].payment_id && ints[k].merchant_id == sv.intents[k].merchant_id
                && ints[k].active_attempt_id == sv.intents[k].active_attempt_id by {}
            let svB = StoreView { intents: ints, ..svA };
            assert(crate::store::intents_key_unique(ints));
            assert forall|k: int| 0 <= k < ints.len() implies has_attempt(
                atts,
                ints[k].payment_id,
                ints[k].merchant_id,
                ints[k].active_attempt_id,
            ) by {
                assert(has_attempt(atts, svA.intents[k].payment_id, svA.intents[k].merchant_id, svA.intents[k].active_attempt_id));
            }
            assert(store_wf(svB));
            // the committed pair
            let i = choose|i: int|
                0 <= i < sv.intents.len() && intent_key_is(sv.intents[i], pid, mid);
            lemma_the_intent(sv.intents, pid, mid, i);
            assert(intent_key_is(ints[i], pid, mid));
            lemma_the_intent(ints, pid, mid, i);
            let j = choose|j: int|
                0 <= j < sv.attempts.len() && attempt_key_is(sv.attempts[j], pid, mid, aid);
            lemma_the_attempt(sv.attempts, pid, mid, aid, j);
            assert(attempt_key_is(atts[j], pid, mid, aid));
            lemma_the_attempt(atts, pid, mid, aid, j);
            lemma_confirm_transition_legal(frm);
            match (updated_customer, customer) {
                (Some(cu), Some(c)) => {
                    if !has_customer(svB.customers, c.customer_id, mid) {
                    } else {
                        let custs = spec_update_customers_seq(svB.customers, c.customer_id, mid, cu);
                        assert forall|k: int| 0 <= k < custs.len() implies custs[k].customer_id
                            == sv.customers[k].customer_id && custs[k].merchant_id
                            == sv.customers[k].merchant_id by {}
                        assert(crate::store::customers_key_unique(custs));
                        assert(store_wf(StoreView { customers: custs, ..svB }));
                    }
                },
                _ => {},
            }
        }
    }
}

// ---------------------------------------------------------------------------
// The laws of the whole operation
// ---------------------------------------------------------------------------

/// A malformed request is rejected by validation before any I/O: the
/// store is untouched.
pub proof fn lemma_validation_error_no_writes(sv: StoreView, r: PaymentsRequest, ma: MerchantAccount, frm: Option<FrmSuggestion>, generated_payment_id: u64, now: u64, default_connector: u64)
    requires
        spec_validate_request(r, ma, generated_payment_id) is Err,
    ensures
        ({
            let out = spec_payment_confirm(sv, r, ma, frm, generated_payment_id, now, default_connector);
            &&& out.0 == sv
            &&& out.1 == Err::<PaymentData, ConfirmError>(
                spec_validate_request(r, ma, generated_payment_id)->Err_0,
            )
        }),
{
}

/// For every intent whose status is Cancelled, Succeeded, Processing,
/// RequiresCapture or RequiresMerchantAction, confirmation always fails
/// with `NotAllowedInCurrentState` and performs zero writes.
pub proof fn lemma_blocked_status_rejects_without_writes(sv: StoreView, r: PaymentsRequest, ma: MerchantAccount, frm: Option<FrmSuggestion>, generated_payment_id: u64, now: u64, default_connector: u64)
    requires
        store_wf(sv),
        spec_validate_request(r, ma, generated_payment_id) is Ok,
        has_intent(sv.intents, spec_resolved_payment_id(r, generated_payment_id), ma.merchant_id),
        confirm_blocked(
            the_intent(
                sv.intents,
                spec_resolved_payment_id(r, generated_payment_id),
                ma.merchant_id,
            ).status,
        ),
    ensures
        ({
            let out = spec_payment_confirm(sv, r, ma, frm, generated_payment_id, now, default_connector);
            &&& out.0 == sv
            &&& out.1 == Err::<PaymentData, ConfirmError>(ConfirmError::NotAllowedInCurrentState)
        }),
{
}

/// Conversely, `NotAllowedInCurrentState` comes only from the status
/// check, which precedes every write: whenever confirmation returns this
/// error, the store is untouched.
pub proof fn lemma_not_allowed_means_no_writes(sv: StoreView, r: PaymentsRequest, ma: MerchantAccount, frm: Option<FrmSuggestion>, generated_payment_id: u64, now: u64, default_connector: u64)
    requires
        store_wf(sv),
        sv.next_id <= u64::MAX - 3,
        ({
            let out = spec_payment_confirm(sv, r, ma, frm, generated_payment_id, now, default_connector);
            out.1 == Err::<PaymentData, ConfirmError>(ConfirmError::NotAllowedInCurrentState)
        }),
    ensures
        ({
            let out = spec_payment_confirm(sv, r, ma, frm, generated_payment_id, now, default_connector);
            out.0 == sv
        }),
{
    match spec_validate_request(r, ma, generated_payment_id) {
        Err(_) => {},
        Ok(vr) => {
            lemma_get_trackers_wf(sv, vr.payment_id, r, vr.mandate_type, ma, now);
        },
    }
}

/// Every successful confirmation commits exactly the transition's status
/// pair at the payment's key — hence always one of the three legal pairs —
/// and the store stays well-formed whatever the outcome.
pub proof fn lemma_confirm_commits_legal_pair(sv: StoreView, r: PaymentsRequest, ma: MerchantAccount, frm: Option<FrmSuggestion>, generated_payment_id: u64, now: u64, default_connector: u64)
    requires
        store_wf(sv),
        sv.next_id <= u64::MAX - 3,
    ensures
        ({
            let (sv2, res) = spec_payment_confirm(sv, r, ma, frm, generated_payment_id, now, default_connector);
            let pid = spec_resolved_payment_id(r, generated_payment_id);
            let mid = ma.merchant_id;
            &&& store_wf(sv2)
            &&& sv.next_id <= sv2.next_id <= sv.next_id + 3
            &&& res is Ok ==> ({
                let it = the_intent(sv2.intents, pid, mid);
                let pair = (it.status, the_attempt(sv2.attempts, pid, mid, it.active_attempt_id).status);
                &&& has_intent(sv2.intents, pid, mid)
                &&& has_attempt(sv2.attempts, pid, mid, it.active_attempt_id)
                &&& pair == spec_confirm_transition(frm)
                &&& legal_commit_pair(pair)
            })
        }),
{
    match spec_validate_request(r, ma, generated_payment_id) {
        Err(_) => {},
        Ok(vr) => {
            lemma_get_trackers_wf(sv, vr.payment_id, r, vr.mandate_type, ma, now);
            let fetched = spec_get_trackers(sv, vr.payment_id, r, vr.mandate_type, ma, now);
            let sv1 = fetched.0;
            match fetched.1 {
                Err(_) => {},
                Ok((pd0, cd)) => {
                    lemma_customer_enrichment_wf(sv1, pd0.payment_intent.customer_id, cd, ma.merchant_id);
                    let enriched = spec_customer_enrichment(
                        sv1,
                        pd0.payment_intent.customer_id,
                        cd,
                        ma.merchant_id,
                    );
                    let sv2 = enriched.0;
                    let pd1 = PaymentData {
                        payment_intent: Intent {
                            customer_id: match enriched.1 {
                                Some(c) => Some(c.customer_id),
                                None => pd0.payment_intent.customer_id,
                            },
                            ..pd0.payment_intent
                        },
                        new_customer_created: enriched.3,
                        ..pd0
                    };
                    match crate::enrich::spec_resolve_payment_method_data(
                        pd1.payment_method_data,
                        pd1.token,
                    ) {
                        None => {},
                        Some(pmd) => {
                            let connector = crate::enrich::spec_connector_choice(
                                r.routing,
                                pd1.payment_attempt.connector,
                                default_connector,
                            );
                            let pd2 = PaymentData {
                                payment_attempt: Attempt {
                                    connector: Some(connector),
                                    ..pd1.payment_attempt
                                },
                                payment_method_data: Some(pmd),
                                ..pd1
                            };
                            lemma_update_trackers_wf(sv2, pd2, enriched.1, enriched.2, frm);
                            assert(sv2.intents == sv1.intents);
                        },
                    }
                },
            }
        },
    }
}

/// Attempt versioning: with intent status RequiresConfirmation and no
/// explicit new-attempt signal, a successful confirmation leaves the
/// attempt identifier unchanged; with an explicit manual-retry signal on a
/// status outside the awaiting set, the post-confirmation identifier is a
/// fresh one, different from every attempt the store held before.
pub proof fn lemma_attempt_versioning(sv: StoreView, payment_id: u64, r: PaymentsRequest, mandate_type: Option<crate::request::MandateTransactionType>, ma: MerchantAccount, now: u64)
    requires
        store_wf(sv),
        sv.next_id <= u64::MAX - 3,
        spec_get_trackers(sv, payment_id, r, mandate_type, ma, now).1 is Ok,
    ensures
        ({
            let (sv1, res) = spec_get_trackers(sv, payment_id, r, mandate_type, ma, now);
            let pd = res->Ok_0.0;
            let it0 = the_intent(sv.intents, payment_id, ma.merchant_id);
            &&& it0.status == IntentStatus::RequiresConfirmation ==> pd.payment_attempt.attempt_id
                == it0.active_attempt_id
            &&& (!awaiting_earlier_attempt(it0.status) && r.retry_action == Some(
                RetryAction::ManualRetry,
            )) ==> pd.payment_attempt.attempt_id != it0.active_attempt_id && !has_attempt_id(
                sv.attempts,
                pd.payment_attempt.attempt_id,
            )
        }),
{
    lemma_get_trackers_wf(sv, payment_id, r, mandate_type, ma, now);
}

/// Serialized confirmations on the same payment never leave a hybrid
/// status pair: after a successful confirmation, a second one — which the
/// store serializes after it — either succeeds and commits a legal pair
/// again, or is rejected by the status gate and writes nothing.  Either
/// way the stored pair is one of the three legal pairs.
pub proof fn lemma_serialized_confirms_leave_legal_pair(sv: StoreView, r1: PaymentsRequest, r2: PaymentsRequest, ma: MerchantAccount, frm1: Option<FrmSuggestion>, frm2: Option<FrmSuggestion>, gen1: u64, gen2: u64, now1: u64, now2: u64, dc1: u64, dc2: u64)
    requires
        store_wf(sv),
        sv.next_id <= u64::MAX - 6,
        spec_payment_confirm(sv, r1, ma, frm1, gen1, now1, dc1).1 is Ok,
        ({
            let sv1 = spec_payment_confirm(sv, r1, ma, frm1, gen1, now1, dc1).0;
            let res2 = spec_payment_confirm(sv1, r2, ma, frm2, gen2, now2, dc2).1;
            res2 is Ok || res2 == Err::<PaymentData, ConfirmError>(
                ConfirmError::NotAllowedInCurrentState,
            )
        }),
        spec_resolved_payment_id(r2, gen2) == spec_resolved_payment_id(r1, gen1),
    ensures
        ({
            let sv1 = spec_payment_confirm(sv, r1, ma, frm1, gen1, now1, dc1).0;
            let sv2 = spec_payment_confirm(sv1, r2, ma, frm2, gen2, now2, dc2).0;
            let pid = spec_resolved_payment_id(r1, gen1);
            let it = the_intent(sv2.intents, pid, ma.merchant_id);
            legal_commit_pair(
                (
                    it.status,
                    the_attempt(sv2.attempts, pid, ma.merchant_id, it.active_attempt_id).status,
                ),
            )
        }),
{
    lemma_confirm_commits_legal_pair(sv, r1, ma, frm1, gen1, now1, dc1);
    let sv1 = spec_payment_confirm(sv, r1, ma, frm1, gen1, now1, dc1).0;
    let res2 = spec_payment_confirm(sv1, r2, ma, frm2, gen2, now2, dc2).1;
    lemma_confirm_commits_legal_pair(sv1, r2, ma, frm2, gen2, now2, dc2);
    if res2 == Err::<PaymentData, ConfirmError>(ConfirmError::NotAllowedInCurrentState) {
        lemma_not_allowed_means_no_writes(sv1, r2, ma, frm2, gen2, now2, dc2);
    }
}

/// Merge policy, end to end: for the optional fields of the intent, a
/// successful confirmation commits the request's value whenever the
/// request supplies one and preserves the stored value whenever it does
/// not; on the in-place (reused-attempt) path the same holds of the
/// attempt's optional fields against the attempt that was stored before
/// the call, and of the mandate-detail merge: the returned setup-mandate
/// type is the request's when the request supplies one, the stored
/// attempt's otherwise.
pub proof fn lemma_merge_policy_committed(sv: StoreView, r: PaymentsRequest, ma: MerchantAccount, frm: Option<FrmSuggestion>, generated_payment_id: u64, now: u64, default_connector: u64)
    requires
        store_wf(sv),
        sv.next_id <= u64::MAX - 3,
    ensures
        ({
            let (sv2, res) = spec_payment_confirm(sv, r, ma, frm, generated_payment_id, now, default_connector);
            let pid = spec_resolved_payment_id(r, generated_payment_id);
            let mid = ma.merchant_id;
            res is Ok ==> ({
                let before = the_intent(sv.intents, pid, mid);
                let after = the_intent(sv2.intents, pid, mid);
                &&& after.metadata == spec_merge(r.metadata, before.metadata)
                &&& after.return_url == spec_merge(r.return_url, before.return_url)
                &&& after.setup_future_usage == spec_merge(
                    r.setup_future_usage,
                    before.setup_future_usage,
                )
                &&& after.order_details == spec_merge(r.order_details, before.order_details)
                &&& spec_attempt_kind(before.status, r) == AttemptType::SameOld ==> ({
                    let at_before = the_attempt(sv.attempts, pid, mid, before.active_attempt_id);
                    let at_after = the_attempt(sv2.attempts, pid, mid, before.active_attempt_id);
                    &&& at_after.browser_info == spec_merge(r.browser_info, at_before.browser_info)
                    &&& at_after.payment_experience == spec_merge(
                        r.payment_experience,
                        at_before.payment_experience,
                    )
                    &&& at_after.capture_method == spec_merge(
                        r.capture_method,
                        at_before.capture_method,
                    )
                    &&& at_after.business_sub_label == spec_merge(
                        r.business_sub_label,
                        at_before.business_sub_label,
                    )
                    &&& r.mandate_data is Some ==> ({
                        let pd_out = res->Ok_0;
                        &&& pd_out.setup_mandate is Some
                        &&& pd_out.setup_mandate->0.mandate_type == spec_merge(
                            r.mandate_data->0.mandate_type,
                            at_before.mandate_details,
                        )
                    })
                })
            })
        }),
{
    match spec_validate_request(r, ma, generated_payment_id) {
        Err(_) => {},
        Ok(vr) => {
            lemma_get_trackers_wf(sv, vr.payment_id, r, vr.mandate_type, ma, now);
            let fetched = spec_get_trackers(sv, vr.payment_id, r, vr.mandate_type, ma, now);
            let sv1 = fetched.0;
            match fetched.1 {
                Err(_) => {},
                Ok((pd0, cd)) => {
                    lemma_customer_enrichment_wf(sv1, pd0.payment_intent.customer_id, cd, ma.merchant_id);
                    let enriched = spec_customer_enrichment(
                        sv1,
                        pd0.payment_intent.customer_id,
                        cd,
                        ma.merchant_id,
                    );
                    let sv2e = enriched.0;
                    let pd1 = PaymentData {
                        payment_intent: Intent {
                            customer_id: match enriched.1 {
                                Some(c) => Some(c.customer_id),
                                None => pd0.payment_intent.customer_id,
                            },
                            ..pd0.payment_intent
                        },
                        new_customer_created: enriched.3,
                        ..pd0
                    };
                    match crate::enrich::spec_resolve_payment_method_data(
                        pd1.payment_method_data,
                        pd1.token,
                    ) {
                        None => {},
                        Some(pmd) => {
                            let connector = crate::enrich::spec_connector_choice(
                                r.routing,
                                pd1.payment_attempt.connector,
                                default_connector,
                            );
                            let pd2 = PaymentData {
                                payment_attempt: Attempt {
                                    connector: Some(connector),
                                    ..pd1.payment_attempt
                                },
                                payment_method_data: Some(pmd),
                                ..pd1
                            };
                            lemma_update_trackers_wf(sv2e, pd2, enriched.1, enriched.2, frm);
                            assert(sv2e.intents == sv1.intents);
                            assert(sv2e.attempts == sv1.attempts);
                        },
                    }
                },
            }
        },
    }
}

} // verus!
