//! The domain-enrichment stage: mandate and token resolution, customer
//! resolution, connector choice and payment-method resolution.

use vstd::prelude::*;
use crate::errors::ConfirmError;
use crate::records::{
    Customer, PaymentMethod, PaymentMethodData, PaymentMethodType, StorageMode,
};
use crate::request::{
    spec_merge, CustomerDetails, MandateData, MandateTransactionType, PaymentsRequest,
};
use crate::store::{
    spec_find_or_create_customer, store_wf, CustomerUpdate, EntityStore, StoreView,
};
use crate::working::PaymentData;

verus! {

/// The ephemeral mandate/token resolution result: derived from the request
/// and the implied mandate transaction type, and folded into attempt
/// fields later.
#[derive(Clone, Copy, Debug, PartialEq, Eq, Structural)]
pub struct MandateResolution {
    pub token: Option<u64>,
    pub payment_method: Option<PaymentMethod>,
    pub payment_method_type: Option<PaymentMethodType>,
    pub setup_mandate: Option<MandateData>,
    pub recurring_mandate_payment_data: Option<u64>,
    pub mandate_connector: Option<u64>,
}

/// Functional model of mandate/token resolution: inline mandate data is
/// kept only for a new-mandate transaction, the stored-mandate reference
/// only for a recurring one.
pub open spec fn spec_resolve_mandate_details(r: PaymentsRequest, mandate_type: Option<MandateTransactionType>) -> MandateResolution {
    MandateResolution {
        token: r.payment_token,
        payment_method: r.payment_method,
        payment_method_type: r.payment_method_type,
        setup_mandate: if mandate_type == Some(MandateTransactionType::NewMandateTransaction) {
            r.mandate_data
        } else {
            None
        },
        recurring_mandate_payment_data: if mandate_type == Some(
            MandateTransactionType::RecurringMandateTransaction,
        ) {
            r.mandate_id
        } else {
            None
        },
        mandate_connector: None,
    }
}

/// Exec mirror of [`spec_resolve_mandate_details`].
pub fn resolve_mandate_details(r: &PaymentsRequest, mandate_type: Option<MandateTransactionType>) -> (res: MandateResolution)
    ensures
        res == spec_resolve_mandate_details(*r, mandate_type),
{
    MandateResolution {
        token: r.payment_token,
        payment_method: r.payment_method,
        payment_method_type: r.payment_method_type,
        setup_mandate: if matches!(mandate_type, Some(MandateTransactionType::NewMandateTransaction)) {
            r.mandate_data
        } else {
            None
        },
        recurring_mandate_payment_data: if matches!(
            mandate_type,
            Some(MandateTransactionType::RecurringMandateTransaction),
        ) {
            r.mandate_id
        } else {
            None
        },
        mandate_connector: None,
    }
}

/// Connector choice: explicit request override, then the connector a
/// previous attempt already chose, then the merchant's default routing
/// outcome, in that priority order.
pub open spec fn spec_connector_choice(request_routing: Option<u64>, previous: Option<u64>, default_choice: u64) -> u64 {
    match request_routing {
        Some(c) => c,
        None => match previous {
            Some(c) => c,
            None => default_choice,
        },
    }
}

/// Exec mirror of [`spec_connector_choice`].  The default choice is what
/// the out-of-scope connector-selection collaborator computed for this
/// merchant.
pub fn get_connector_choice(request_routing: Option<u64>, previous: Option<u64>, default_choice: u64) -> (res: u64)
    ensures
        res == spec_connector_choice(request_routing, previous, default_choice),
{
    match request_routing {
        Some(c) => c,
        None => match previous {
            Some(c) => c,
            None => default_choice,
        },
    }
}

/// Payment-method data resolution: data the request supplies wins; failing
/// that, a token recovers stored data; failing both, nothing resolves.
pub open spec fn spec_resolve_payment_method_data(request_pmd: Option<PaymentMethodData>, token: Option<u64>) -> Option<PaymentMethodData> {
    match request_pmd {
        Some(d) => Some(d),
        None => match token {
            Some(t) => Some(PaymentMethodData::Tokenized(t)),
            None => None,
        },
    }
}

/// Exec mirror of [`spec_resolve_payment_method_data`].
pub fn resolve_payment_method_data(request_pmd: Option<PaymentMethodData>, token: Option<u64>) -> (res: Option<PaymentMethodData>)
    ensures
        res == spec_resolve_payment_method_data(request_pmd, token),
{
    match request_pmd {
        Some(d) => Some(d),
        None => match token {
            Some(t) => Some(PaymentMethodData::Tokenized(t)),
            None => None,
        },
    }
}

/// Functional model of customer enrichment.  The customer id comes from
/// the request's details or the intent; without one, no customer is
/// involved.  With one, the customer is found or created; for a found
/// customer with freshly supplied details a patch is prepared for the
/// persist stage.
pub open spec fn spec_customer_enrichment(sv: StoreView, intent_customer_id: Option<u64>, req: CustomerDetails, merchant_id: u64) -> (StoreView, Option<Customer>, Option<CustomerUpdate>, bool) {
    match spec_merge(req.customer_id, intent_customer_id) {
        None => (sv, None, None, false),
        Some(cid) => {
            let (sv2, c, created) = spec_find_or_create_customer(sv, cid, merchant_id, req);
            let upd = if !created && (req.name is Some || req.email is Some || req.phone is Some) {
                Some(CustomerUpdate { name: req.name, email: req.email, phone: req.phone })
            } else {
                None
            };
            (sv2, Some(c), upd, created)
        },
    }
}

/// Resolves or creates the customer for this confirmation, records on the
/// working record which customer the intent now references and whether a
/// new customer was created, and hands back the patch the persist stage
/// must commit for an existing customer with fresh details.
pub fn get_or_create_customer_details(store: &mut EntityStore, pd: &mut PaymentData, req: CustomerDetails, merchant_id: u64, _mode: StorageMode) -> (res: (Option<Customer>, Option<CustomerUpdate>))
    requires
        store_wf(old(store)@),
    ensures
        store_wf(final(store)@),
        ({
            let (sv2, c, upd, created) = spec_customer_enrichment(
                old(store)@,
                old(pd).payment_intent.customer_id,
                req,
                merchant_id,
            );
            &&& final(store)@ == sv2
            &&& res == (c, upd)
            &&& *final(pd) == (PaymentData {
                payment_intent: crate::records::Intent {
                    customer_id: match c {
                        Some(cu) => Some(cu.customer_id),
                        None => old(pd).payment_intent.customer_id,
                    },
                    ..old(pd).payment_intent
                },
                new_customer_created: created,
                ..*old(pd)
            })
        }),
{
    let cid_opt = crate::request::merge(req.customer_id, pd.payment_intent.customer_id);
    match cid_opt {
        None => {
            pd.new_customer_created = false;
            (None, None)
        },
        Some(cid) => {
            let (customer, created) = store.find_or_create_customer(cid, merchant_id, req, _mode);
            let upd = if !created && (req.name.is_some() || req.email.is_some()
                || req.phone.is_some()) {
                Some(CustomerUpdate { name: req.name, email: req.email, phone: req.phone })
            } else {
                None
            };
            pd.payment_intent.customer_id = Some(customer.customer_id);
            pd.new_customer_created = created;
            (Some(customer), upd)
        },
    }
}

} // verus!
