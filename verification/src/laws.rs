//! What holds of the monitor from one cycle to the next, proved over the
//! values that the contracts of the other modules speak of.

use crate::config::ConfigView;
use crate::evaluator::balance_failures;
use crate::evaluator::blockhash_check;
use crate::evaluator::delinquency_check;
use crate::evaluator::stake_check;
use crate::evaluator::stake_percent;
use crate::evaluator::status_entries;
use crate::evaluator::transaction_count_check;
use crate::evaluator::watched_delinquency;
use crate::failure::as_list;
use crate::failure::first_failure;
use crate::failure::CheckKind;
use crate::failure::FailureView;
use crate::messages::all_clear_notification;
use crate::messages::balance_message;
use crate::messages::delinquent_entry;
use crate::messages::error_notification;
use crate::messages::lemma_error_notification_not_empty;
use crate::messages::missing_entry;
use crate::poller::cycle_failures;
use crate::poller::cycle_reported;
use crate::poller::cycle_state;
use crate::poller::OutcomeView;
use crate::snapshot::lists_identity;
use crate::snapshot::SnapshotView;
use crate::state::StateView;
use crate::tracker::cycle_message;
use crate::tracker::notifies;
use vstd::prelude::*;

verus! {

/// The transaction count of the state never goes down, and after a cycle on
/// a snapshot it is at least the snapshot's count.
///
/// So of two snapshots in a row: where the second count is not above the
/// first, the transaction count check fails on the second, and its failure
/// is the first of the cycle. Where the second count is above the first and
/// above every count seen before, the check passes and the state takes the
/// second count.
pub proof fn lemma_transaction_count_ratchet(
    state: StateView,
    first: SnapshotView,
    first_balances: Seq<Option<u64>>,
    second: SnapshotView,
    second_balances: Seq<Option<u64>>,
    config: ConfigView,
)
    ensures
        ({
            let between = cycle_state(
                OutcomeView::Fetched { snapshot: first, balances: first_balances },
                state,
                config,
            );
            let outcome = OutcomeView::Fetched { snapshot: second, balances: second_balances };
            &&& between.last_transaction_count >= state.last_transaction_count
            &&& between.last_transaction_count >= first.transaction_count
            &&& second.transaction_count <= first.transaction_count ==> {
                &&& transaction_count_check(second, between) is Some
                &&& cycle_reported(outcome, between, config) == transaction_count_check(
                    second,
                    between,
                )
                &&& cycle_state(outcome, between, config).last_transaction_count
                    == between.last_transaction_count
            }
            &&& second.transaction_count > first.transaction_count && second.transaction_count
                > state.last_transaction_count ==> {
                &&& transaction_count_check(second, between) is None
                &&& cycle_state(outcome, between, config).last_transaction_count
                    == second.transaction_count
            }
        }),
{
}

/// Of two snapshots in a row with the same blockhash, the blockhash check
/// fails on the second, whatever the state was before the first.
pub proof fn lemma_blockhash_repeat(
    state: StateView,
    first: SnapshotView,
    first_balances: Seq<Option<u64>>,
    second: SnapshotView,
    config: ConfigView,
)
    requires
        second.recent_blockhash == first.recent_blockhash,
    ensures
        ({
            let between = cycle_state(
                OutcomeView::Fetched { snapshot: first, balances: first_balances },
                state,
                config,
            );
            &&& between.last_blockhash == first.recent_blockhash
            &&& blockhash_check(second, between) is Some
            &&& blockhash_check(second, between)->0.kind == CheckKind::RecentBlockhash
        }),
{
}

/// The stake percentage is rounded down, and it is at most 100.
pub proof fn lemma_stake_percent_rounds_down(snapshot: SnapshotView)
    requires
        snapshot.total_stake() > 0,
    ensures
        stake_percent(snapshot) * snapshot.total_stake() <= snapshot.current_stake() * 100,
        snapshot.current_stake() * 100 < (stake_percent(snapshot) + 1) * snapshot.total_stake(),
        stake_percent(snapshot) <= 100,
{
    let total = snapshot.total_stake() as int;
    let scaled = (snapshot.current_stake() * 100) as int;
    let percent = scaled / total;
    vstd::arithmetic::div_mod::lemma_fundamental_div_mod(scaled, total);
    vstd::arithmetic::div_mod::lemma_mod_pos_bound(scaled, total);
    assert(total * percent == percent * total) by (nonlinear_arith);
    assert((percent + 1) * total == percent * total + total) by (nonlinear_arith);
    assert(percent <= 100) by (nonlinear_arith)
        requires
            percent * total <= scaled,
            scaled <= 100 * total,
            total > 0,
    ;
}

/// Where the stake check runs, it fails exactly when the percentage is below
/// the threshold: a percentage that equals the threshold passes, one below
/// it by one fails. Rounding down loses nothing: the check fails exactly when
/// a hundred times the current stake is below the threshold times the total.
pub proof fn lemma_stake_threshold(snapshot: SnapshotView, config: ConfigView)
    requires
        config.monitor_active_stake,
        snapshot.total_stake() > 0,
    ensures
        stake_check(snapshot, config) is Some <==> stake_percent(snapshot)
            < config.stake_threshold_percent,
        stake_percent(snapshot) == config.stake_threshold_percent ==> stake_check(
            snapshot,
            config,
        ) is None,
        stake_percent(snapshot) + 1 == config.stake_threshold_percent ==> stake_check(
            snapshot,
            config,
        ) is Some,
        stake_check(snapshot, config) is Some <==> snapshot.current_stake() * 100
            < config.stake_threshold_percent * snapshot.total_stake(),
{
    lemma_stake_percent_rounds_down(snapshot);
    let total = snapshot.total_stake() as int;
    let scaled = (snapshot.current_stake() * 100) as int;
    let percent = stake_percent(snapshot) as int;
    let threshold = config.stake_threshold_percent as int;
    if percent < threshold {
        assert((percent + 1) * total <= threshold * total) by (nonlinear_arith)
            requires
                percent + 1 <= threshold,
                total > 0,
        ;
    } else {
        assert(threshold * total <= percent * total) by (nonlinear_arith)
            requires
                threshold <= percent,
                total > 0,
        ;
    }
}

/// The stake check is skipped for a snapshot without stake, and where the
/// configuration does not ask for it.
pub proof fn lemma_stake_check_skipped(snapshot: SnapshotView, config: ConfigView)
    ensures
        snapshot.total_stake() == 0 ==> stake_check(snapshot, config) is None,
        !config.monitor_active_stake ==> stake_check(snapshot, config) is None,
{
}

/// After a cycle with a failure an alert is firing; after a cycle without
/// one, none is. The empty message, and only it, stands for the clear state.
pub proof fn lemma_alerting_after_cycle(state: StateView, failure: Option<FailureView>)
    ensures
        state.reconciled(failure).alerting() == failure.is_some(),
{
    if let Some(f) = failure {
        lemma_error_notification_not_empty(f);
    }
}

/// Two cycles in a row whose failures give the same notification. Where
/// duplicates are not suppressed, both cycles notify. Where they are, the
/// second cycle does not notify, and the first does unless that very
/// notification was already the last one before it: a failure that is new
/// to the state is notified exactly once.
pub proof fn lemma_repeated_failure(
    state: StateView,
    first: FailureView,
    second: FailureView,
    dedup: bool,
)
    requires
        error_notification(first) == error_notification(second),
    ensures
        ({
            let between = state.reconciled(Some(first));
            &&& !dedup ==> notifies(Some(first), state.last_notification_message, dedup)
                && notifies(Some(second), between.last_notification_message, dedup)
            &&& dedup ==> !notifies(Some(second), between.last_notification_message, dedup)
            &&& dedup && state.last_notification_message != error_notification(first) ==> notifies(
                Some(first),
                state.last_notification_message,
                dedup,
            )
        }),
{
}

/// A cycle without failure that follows a cycle with one notifies, and its
/// message is the all clear. A cycle without failure that follows another
/// cycle without failure does not notify. So an alert is cleared exactly
/// once, whether or not duplicates are suppressed.
pub proof fn lemma_all_clear_once(
    state: StateView,
    failure: FailureView,
    earlier: Option<FailureView>,
    dedup: bool,
)
    ensures
        notifies(None, state.reconciled(Some(failure)).last_notification_message, dedup),
        cycle_message(None) == all_clear_notification(),
        !notifies(None, state.reconciled(None).last_notification_message, dedup),
        !notifies(
            None,
            state.reconciled(earlier).reconciled(None).last_notification_message,
            dedup,
        ),
{
    lemma_error_notification_not_empty(failure);
}

/// With one watched identity. Where it is in neither list, the delinquency
/// failure says that it is missing; where it is in the delinquent list, that
/// it is delinquent; where it is current only, there is no delinquency
/// failure. Where its balance was read and is below the minimum, a balance
/// failure of its own stands before that, however the identity stands
/// otherwise.
pub proof fn lemma_single_watched_identity(
    snapshot: SnapshotView,
    balances: Seq<Option<u64>>,
    config: ConfigView,
    identity: Seq<char>,
)
    requires
        config.watched_identities == seq![identity],
    ensures
        ({
            let in_delinquent = lists_identity(snapshot.delinquent_validators, identity);
            let in_current = lists_identity(snapshot.current_validators, identity);
            let delinquency = watched_delinquency(snapshot, config.watched_identities);
            let found = delinquency_check(snapshot, balances, config);
            let low = balances.len() > 0 && balances[0] is Some && balances[0]->0
                < config.min_balance_lamports;
            &&& !in_delinquent && !in_current ==> delinquency == Some(
                FailureView { kind: CheckKind::Delinquent, message: missing_entry(identity) },
            )
            &&& in_delinquent ==> delinquency == Some(
                FailureView { kind: CheckKind::Delinquent, message: delinquent_entry(identity) },
            )
            &&& !in_delinquent && in_current ==> delinquency is None
            &&& low ==> found == seq![
                FailureView {
                    kind: CheckKind::Balance,
                    message: balance_message(identity, balances[0]->0 as nat),
                },
            ] + as_list(delinquency)
            &&& !low ==> found == as_list(delinquency)
        }),
{
    reveal_with_fuel(status_entries, 2);
    reveal_with_fuel(balance_failures, 2);
}

/// Of the failures of a snapshot only the first is acted upon, and the
/// order of the checks decides which that is: the transaction count before
/// the blockhash, the blockhash before the stake, the stake before the
/// balances and the delinquency.
pub proof fn lemma_reported_failure_priority(
    snapshot: SnapshotView,
    balances: Seq<Option<u64>>,
    state: StateView,
    config: ConfigView,
)
    ensures
        cycle_reported(OutcomeView::Fetched { snapshot, balances }, state, config) == (
        if transaction_count_check(snapshot, state) is Some {
            transaction_count_check(snapshot, state)
        } else if blockhash_check(snapshot, state) is Some {
            blockhash_check(snapshot, state)
        } else if stake_check(snapshot, config) is Some {
            stake_check(snapshot, config)
        } else {
            first_failure(delinquency_check(snapshot, balances, config))
        }),
{
}

/// A fetch that failed gives exactly one failure, of kind `Rpc` and with the
/// error's text, and leaves the state's counters as they were.
pub proof fn lemma_failed_fetch(state: StateView, error: Seq<char>, config: ConfigView)
    ensures
        ({
            let outcome = OutcomeView::Failed { error };
            &&& cycle_failures(outcome, state, config) == seq![
                FailureView { kind: CheckKind::Rpc, message: error },
            ]
            &&& cycle_reported(outcome, state, config) == Some(
                FailureView { kind: CheckKind::Rpc, message: error },
            )
            &&& cycle_state(outcome, state, config).last_transaction_count
                == state.last_transaction_count
            &&& cycle_state(outcome, state, config).last_blockhash == state.last_blockhash
            &&& cycle_state(outcome, state, config).alerting()
        }),
{
    lemma_error_notification_not_empty(FailureView { kind: CheckKind::Rpc, message: error });
}

} // verus!
