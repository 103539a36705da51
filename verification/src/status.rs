//! Status domains of intents and attempts, and the confirmation status
//! state machine: which intent statuses admit confirmation at all, and
//! which (intent, attempt) status pair a confirmation commits, depending
//! on the fraud-prevention suggestion.

use vstd::prelude::*;

verus! {

/// Lifecycle status of a payment intent.
#[derive(Clone, Copy, Debug, PartialEq, Eq, Structural)]
pub enum IntentStatus {
    RequiresPaymentMethod,
    RequiresConfirmation,
    RequiresCustomerAction,
    RequiresMerchantAction,
    RequiresCapture,
    Processing,
    Succeeded,
    Failed,
    Cancelled,
}

/// Lifecycle status of a payment attempt.
#[derive(Clone, Copy, Debug, PartialEq, Eq, Structural)]
pub enum AttemptStatus {
    Started,
    Pending,
    Unresolved,
    Failure,
    Charged,
}

/// Suggestion of the fraud-prevention subsystem for the current confirmation.
#[derive(Clone, Copy, Debug, PartialEq, Eq, Structural)]
pub enum FrmSuggestion {
    FrmCancelTransaction,
    FrmManualReview,
    FrmAutoRefund,
}

/// Intent statuses in which confirmation is not allowed: the payment is
/// already final, already being processed, or waiting on the merchant.
pub open spec fn confirm_blocked(s: IntentStatus) -> bool {
    s == IntentStatus::Cancelled || s == IntentStatus::Succeeded
        || s == IntentStatus::Processing || s == IntentStatus::RequiresCapture
        || s == IntentStatus::RequiresMerchantAction
}

/// Exec mirror of [`confirm_blocked`].
pub fn is_confirm_blocked(s: IntentStatus) -> (r: bool)
    ensures
        r == confirm_blocked(s),
{
    match s {
        IntentStatus::Cancelled => true,
        IntentStatus::Succeeded => true,
        IntentStatus::Processing => true,
        IntentStatus::RequiresCapture => true,
        IntentStatus::RequiresMerchantAction => true,
        _ => false,
    }
}

/// Intent statuses that mean the payment is still awaiting completion of an
/// earlier attempt; the versioning policy then always reuses that attempt.
pub open spec fn awaiting_earlier_attempt(s: IntentStatus) -> bool {
    s == IntentStatus::RequiresCustomerAction || s == IntentStatus::RequiresMerchantAction
        || s == IntentStatus::RequiresPaymentMethod || s == IntentStatus::RequiresConfirmation
}

/// Exec mirror of [`awaiting_earlier_attempt`].
pub fn is_awaiting_earlier_attempt(s: IntentStatus) -> (r: bool)
    ensures
        r == awaiting_earlier_attempt(s),
{
    match s {
        IntentStatus::RequiresCustomerAction => true,
        IntentStatus::RequiresMerchantAction => true,
        IntentStatus::RequiresPaymentMethod => true,
        IntentStatus::RequiresConfirmation => true,
        _ => false,
    }
}

/// The status pair a successful confirmation commits, as a function of the
/// fraud-prevention suggestion alone: cancel lands on (Failed, Failure),
/// manual review on (RequiresMerchantAction, Unresolved), anything else on
/// the normal path (Processing, Pending).
pub open spec fn spec_confirm_transition(frm: Option<FrmSuggestion>) -> (IntentStatus, AttemptStatus) {
    match frm {
        Some(FrmSuggestion::FrmCancelTransaction) => (IntentStatus::Failed, AttemptStatus::Failure),
        Some(FrmSuggestion::FrmManualReview) => (
            IntentStatus::RequiresMerchantAction,
            AttemptStatus::Unresolved,
        ),
        _ => (IntentStatus::Processing, AttemptStatus::Pending),
    }
}

/// Exec mirror of [`spec_confirm_transition`].
pub fn confirm_transition(frm: Option<FrmSuggestion>) -> (r: (IntentStatus, AttemptStatus))
    ensures
        r == spec_confirm_transition(frm),
{
    match frm {
        Some(FrmSuggestion::FrmCancelTransaction) => (IntentStatus::Failed, AttemptStatus::Failure),
        Some(FrmSuggestion::FrmManualReview) => (
            IntentStatus::RequiresMerchantAction,
            AttemptStatus::Unresolved,
        ),
        _ => (IntentStatus::Processing, AttemptStatus::Pending),
    }
}

/// The three (intent, attempt) status pairs a confirmation may commit.
pub open spec fn legal_commit_pair(p: (IntentStatus, AttemptStatus)) -> bool {
    p == (IntentStatus::Failed, AttemptStatus::Failure)
        || p == (IntentStatus::RequiresMerchantAction, AttemptStatus::Unresolved)
        || p == (IntentStatus::Processing, AttemptStatus::Pending)
}

/// Whatever the fraud-prevention subsystem suggests, the committed status
/// pair is one of the three legal pairs; no other pair can come out of the
/// transition.
pub proof fn lemma_confirm_transition_legal(frm: Option<FrmSuggestion>)
    ensures
        legal_commit_pair(spec_confirm_transition(frm)),
{
}

} // verus!
