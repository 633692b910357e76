//! The alert state: whether an alert is firing, with which message, and
//! whether a cycle's outcome is worth a notification.
//!
//! The state is either clear or firing. It is firing exactly when the last
//! notification message is not empty; while firing it remembers the message,
//! so that the same message need not be sent twice.

use crate::config::MonitorConfig;
use crate::failure::CheckFailure;
use crate::failure::FailureView;
use crate::messages::all_clear_notification;
use crate::messages::all_clear_text;
use crate::messages::error_notification;
use crate::messages::error_notification_text;
use crate::state::MonitorState;
use crate::state::StateView;
use vstd::prelude::*;

verus! {

/// What a cycle's outcome means for the operator.
#[derive(Debug, PartialEq, Eq)]
pub struct Reconciliation {
    /// Whether the message is to be sent.
    pub should_notify: bool,
    /// The message of this cycle: the failure's notification, or the all
    /// clear.
    pub message: String,
}

/// A borrowed optional failure as a value.
pub open spec fn borrowed_view(failure: Option<&CheckFailure>) -> Option<FailureView> {
    match failure {
        Some(f) => Some(f@),
        None => None,
    }
}

/// The message of a cycle with the given outcome.
pub open spec fn cycle_message(failure: Option<FailureView>) -> Seq<char> {
    match failure {
        Some(f) => error_notification(f),
        None => all_clear_notification(),
    }
}

/// The message that the state keeps after a cycle with the given outcome:
/// the failure's notification, or nothing.
pub open spec fn kept_message(failure: Option<FailureView>) -> Seq<char> {
    match failure {
        Some(f) => error_notification(f),
        None => Seq::<char>::empty(),
    }
}

/// Whether a cycle with the given outcome notifies. A failure notifies unless
/// duplicates are suppressed and its message is the last one again. A cycle
/// without failure notifies when an alert was firing.
pub open spec fn notifies(failure: Option<FailureView>, last_message: Seq<char>, dedup: bool)
    -> bool {
    match failure {
        Some(f) => !dedup || error_notification(f) != last_message,
        None => last_message.len() > 0,
    }
}

impl StateView {
    /// The state after a cycle with the given outcome: the counters are left
    /// alone, the message is the one to keep.
    pub open spec fn reconciled(self, failure: Option<FailureView>) -> StateView {
        StateView {
            last_transaction_count: self.last_transaction_count,
            last_blockhash: self.last_blockhash,
            last_notification_message: kept_message(failure),
        }
    }
}

/// Decides whether the outcome of a cycle is worth a notification, and
/// records in the state what the next cycle needs to know.
pub fn reconcile(failure: Option<&CheckFailure>, state: &mut MonitorState, config: &MonitorConfig)
    -> (decision: Reconciliation)
    ensures
        decision.should_notify == notifies(
            borrowed_view(failure),
            old(state)@.last_notification_message,
            config@.dedup_enabled,
        ),
        decision.message@ == cycle_message(borrowed_view(failure)),
        final(state)@ == old(state)@.reconciled(borrowed_view(failure)),
        final(state)@.alerting() == failure.is_some(),
{
    match failure {
        Some(f) => {
            let message = error_notification_text(f);
            let should_notify = !config.dedup_enabled || !(state.last_notification_message
                == message);
            state.last_notification_message = message.clone();
            Reconciliation { should_notify, message }
        },
        None => {
            let should_notify = !state.last_notification_message.as_str().is_empty();
            state.last_notification_message = String::new();
            Reconciliation { should_notify, message: all_clear_text() }
        },
    }
}

} // verus!
