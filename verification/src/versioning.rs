//! The attempt versioning policy: whether a confirmation reuses the
//! intent's existing attempt or creates a new one.

use vstd::prelude::*;
use crate::records::{Attempt, Intent};
use crate::request::{PaymentsRequest, RetryAction};
use crate::status::{awaiting_earlier_attempt, AttemptStatus, IntentStatus};

verus! {

/// The two outcomes of the policy.
#[derive(Clone, Copy, Debug, PartialEq, Eq, Structural)]
pub enum AttemptType {
    /// Reuse and modify the existing attempt in place.
    SameOld,
    /// Create a new attempt with a fresh identifier.
    New,
}

/// The policy: while the intent is still awaiting completion of an earlier
/// attempt the existing attempt is always reused; otherwise the request
/// decides, and only an explicit manual-retry signal creates a new attempt.
/// Ambiguous or missing retry signalling defaults to modifying in place.
pub open spec fn spec_attempt_kind(intent_status: IntentStatus, r: PaymentsRequest) -> AttemptType {
    if awaiting_earlier_attempt(intent_status) {
        AttemptType::SameOld
    } else if r.retry_action == Some(RetryAction::ManualRetry) {
        AttemptType::New
    } else {
        AttemptType::SameOld
    }
}

/// Exec mirror of [`spec_attempt_kind`].
pub fn get_attempt_type(intent_status: IntentStatus, r: &PaymentsRequest) -> (res: AttemptType)
    ensures
        res == spec_attempt_kind(intent_status, *r),
{
    if crate::status::is_awaiting_earlier_attempt(intent_status) {
        AttemptType::SameOld
    } else if matches!(r.retry_action, Some(RetryAction::ManualRetry)) {
        AttemptType::New
    } else {
        AttemptType::SameOld
    }
}

/// The template for a new attempt: it inherits amount, currency and
/// customer linkage from the intent, starts in `Started`, and carries a
/// fresh, empty connector-response slot.  The store assigns the
/// identifier.
pub open spec fn spec_new_attempt_template(it: Intent) -> Attempt {
    Attempt {
        attempt_id: 0,
        payment_id: it.payment_id,
        merchant_id: it.merchant_id,
        status: AttemptStatus::Started,
        amount: it.amount,
        currency: Some(it.currency),
        payment_method: None,
        payment_method_type: None,
        payment_method_data: None,
        connector: None,
        connector_response: None,
        authentication_type: None,
        browser_info: None,
        payment_token: None,
        payment_experience: None,
        capture_method: None,
        business_sub_label: None,
        mandate_details: None,
        straight_through_algorithm: None,
        error_code: None,
        error_message: None,
        amount_capturable: None,
    }
}

/// Exec mirror of [`spec_new_attempt_template`].
pub fn new_attempt_template(it: &Intent) -> (res: Attempt)
    ensures
        res == spec_new_attempt_template(*it),
{
    Attempt {
        attempt_id: 0,
        payment_id: it.payment_id,
        merchant_id: it.merchant_id,
        status: AttemptStatus::Started,
        amount: it.amount,
        currency: Some(it.currency),
        payment_method: None,
        payment_method_type: None,
        payment_method_data: None,
        connector: None,
        connector_response: None,
        authentication_type: None,
        browser_info: None,
        payment_token: None,
        payment_experience: None,
        capture_method: None,
        business_sub_label: None,
        mandate_details: None,
        straight_through_algorithm: None,
        error_code: None,
        error_message: None,
        amount_capturable: None,
    }
}

} // verus!
