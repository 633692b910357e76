//! One cycle of the monitor, from what the fetch brought to what is to be
//! reported.
//!
//! The caller owns the loop: it fetches a snapshot and the watched
//! identities' balances, hands the outcome to [`run_cycle`], emits the
//! telemetry and the notification that the report asks for, sleeps for the
//! configured interval and starts over. A fetch that failed is not tried
//! again within the cycle.

use crate::config::ConfigView;
use crate::config::MonitorConfig;
use crate::evaluator::evaluate;
use crate::evaluator::evaluation;
use crate::failure::failure_views;
use crate::failure::first_failure;
use crate::failure::CheckFailure;
use crate::failure::CheckKind;
use crate::failure::FailureView;
use crate::messages::rpc_failure;
use crate::snapshot::ClusterSnapshot;
use crate::snapshot::SnapshotView;
use crate::state::MonitorState;
use crate::state::StateView;
use crate::tracker::cycle_message;
use crate::tracker::notifies;
use crate::tracker::reconcile;
use vstd::prelude::*;

verus! {

/// What the fetch at the start of a cycle brought.
#[derive(Debug, PartialEq, Eq)]
pub enum FetchOutcome {
    /// The snapshot, and the balance read for each watched identity, in the
    /// order of the configuration; `None` for a lookup that failed.
    Fetched { snapshot: ClusterSnapshot, balances: Vec<Option<u64>> },
    /// The snapshot could not be fetched; the text of the transport error.
    Failed { error: String },
}

/// A fetch outcome as a value.
pub enum OutcomeView {
    Fetched { snapshot: SnapshotView, balances: Seq<Option<u64>> },
    Failed { error: Seq<char> },
}

impl View for FetchOutcome {
    type V = OutcomeView;

    open spec fn view(&self) -> OutcomeView {
        match self {
            FetchOutcome::Fetched { snapshot, balances } => OutcomeView::Fetched {
                snapshot: snapshot@,
                balances: balances@,
            },
            FetchOutcome::Failed { error } => OutcomeView::Failed { error: error@ },
        }
    }
}

/// What a cycle found and what the caller is to do about it.
#[derive(Debug, PartialEq, Eq)]
pub struct CycleReport {
    /// All the failures of the cycle, in the order of the checks. Only the
    /// first is acted upon.
    pub failures: Vec<CheckFailure>,
    /// Whether the message is to be sent.
    pub should_notify: bool,
    /// The message of the cycle.
    pub message: String,
    /// Seconds to sleep before the next cycle.
    pub sleep_secs: u64,
}

/// The failures of a cycle: those of the checks, or the one failure that
/// stands for a fetch that failed.
pub open spec fn cycle_failures(outcome: OutcomeView, state: StateView, config: ConfigView) -> Seq<
    FailureView,
> {
    match outcome {
        OutcomeView::Fetched { snapshot, balances } => evaluation(
            snapshot,
            balances,
            state,
            config,
        ),
        OutcomeView::Failed { error } => seq![FailureView { kind: CheckKind::Rpc, message: error }],
    }
}

/// The failure that a cycle acts upon: the first one.
pub open spec fn cycle_reported(outcome: OutcomeView, state: StateView, config: ConfigView)
    -> Option<FailureView> {
    first_failure(cycle_failures(outcome, state, config))
}

/// The state after a cycle. A snapshot's counters are taken in; a fetch that
/// failed leaves the counters alone. Either way the message of the failure
/// acted upon, if any, is kept.
pub open spec fn cycle_state(outcome: OutcomeView, state: StateView, config: ConfigView)
    -> StateView {
    let observed = match outcome {
        OutcomeView::Fetched { snapshot, balances } => state.observe(snapshot),
        OutcomeView::Failed { error } => state,
    };
    observed.reconciled(cycle_reported(outcome, state, config))
}

impl CycleReport {
    /// Whether the cycle found the cluster healthy.
    pub fn ok(&self) -> (ok: bool)
        ensures
            ok == (self.failures@.len() == 0),
    {
        self.failures.len() == 0
    }

    /// The failure that the cycle acts upon: the first one, if any.
    pub fn reported(&self) -> (failure: Option<&CheckFailure>)
        ensures
            crate::tracker::borrowed_view(failure) == first_failure(failure_views(self.failures@)),
    {
        if self.failures.len() > 0 {
            Some(&self.failures[0])
        } else {
            None
        }
    }
}

/// Runs one cycle on what the fetch brought: evaluates the snapshot, or
/// stands in one failure for a fetch that failed; takes the snapshot's
/// counters into the state; and decides on the notification for the first
/// failure.
pub fn run_cycle(outcome: FetchOutcome, state: &mut MonitorState, config: &MonitorConfig) -> (report:
    CycleReport)
    ensures
        failure_views(report.failures@) == cycle_failures(outcome@, old(state)@, config@),
        report.should_notify == notifies(
            cycle_reported(outcome@, old(state)@, config@),
            old(state)@.last_notification_message,
            config@.dedup_enabled,
        ),
        report.message@ == cycle_message(cycle_reported(outcome@, old(state)@, config@)),
        report.sleep_secs == config.interval_secs,
        final(state)@ == cycle_state(outcome@, old(state)@, config@),
        outcome is Failed ==> {
            &&& report.failures@.len() == 1
            &&& report.failures@[0].kind == CheckKind::Rpc
            &&& report.failures@[0].message@ == outcome->error@
            &&& final(state).last_transaction_count == old(state).last_transaction_count
            &&& final(state).last_blockhash@ == old(state).last_blockhash@
        },
{
    let failures = match outcome {
        FetchOutcome::Fetched { snapshot, balances } => {
            let failures = evaluate(&snapshot, &balances, state, config);
            state.observe(&snapshot);
            failures
        },
        FetchOutcome::Failed { error } => {
            let mut failures: Vec<CheckFailure> = Vec::new();
            failures.push(rpc_failure(error));
            failures
        },
    };
    let decision = if failures.len() > 0 {
        reconcile(Some(&failures[0]), state, config)
    } else {
        reconcile(None, state, config)
    };
    CycleReport {
        failures,
        should_notify: decision.should_notify,
        message: decision.message,
        sleep_secs: config.interval_secs,
    }
}

} // verus!
