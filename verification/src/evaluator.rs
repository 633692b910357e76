//! The health checks. They run in a fixed order, and the failures come out
//! in the order in which the checks ran: transaction count, blockhash, stake,
//! then the watched identities' balances and delinquency.

use crate::config::ConfigView;
use crate::config::MonitorConfig;
use crate::failure::as_list;
use crate::failure::failure_views;
use crate::failure::option_view;
use crate::failure::CheckFailure;
use crate::failure::CheckKind;
use crate::failure::FailureView;
use crate::messages::balance_failure;
use crate::messages::balance_message;
use crate::messages::blockhash_failure;
use crate::messages::blockhash_message;
use crate::messages::delinquent_count_failure;
use crate::messages::delinquent_count_message;
use crate::messages::delinquent_entry;
use crate::messages::delinquent_entry_text;
use crate::messages::missing_entry;
use crate::messages::missing_entry_text;
use crate::messages::stake_failure;
use crate::messages::stake_message;
use crate::messages::transaction_count_failure;
use crate::messages::transaction_count_message;
use crate::snapshot::account_views;
use crate::snapshot::lists_identity;
use crate::snapshot::ClusterSnapshot;
use crate::snapshot::SnapshotView;
use crate::snapshot::VoteAccount;
use crate::state::MonitorState;
use crate::state::StateView;
use crate::text::comma_joined;
use crate::text::join_with_commas;
use crate::text::texts_of;
use vstd::prelude::*;

verus! {

/// How a watched identity stands in a snapshot.
#[derive(Clone, Copy, Debug, PartialEq, Eq, Structural)]
pub enum IdentityStatus {
    /// Among the current validators and not among the delinquent ones.
    Healthy,
    /// Among the delinquent validators.
    Delinquent,
    /// In neither list.
    Missing,
}

/// The transaction count check fails unless the count is above the last one.
pub open spec fn transaction_count_check(snapshot: SnapshotView, state: StateView) -> Option<
    FailureView,
> {
    if state.count_advances(snapshot) {
        None
    } else {
        Some(
            FailureView {
                kind: CheckKind::TransactionCount,
                message: transaction_count_message(
                    snapshot.transaction_count,
                    state.last_transaction_count,
                ),
            },
        )
    }
}

/// The blockhash check fails when the blockhash is the last one again.
pub open spec fn blockhash_check(snapshot: SnapshotView, state: StateView) -> Option<
    FailureView,
> {
    if state.blockhash_rotates(snapshot) {
        None
    } else {
        Some(
            FailureView {
                kind: CheckKind::RecentBlockhash,
                message: blockhash_message(snapshot.recent_blockhash),
            },
        )
    }
}

/// The share of the stake that is on current validators, in percent, rounded
/// down. It means nothing for a snapshot without stake.
pub open spec fn stake_percent(snapshot: SnapshotView) -> nat
    recommends
        snapshot.total_stake() > 0,
{
    (snapshot.current_stake() * 100) / snapshot.total_stake()
}

/// The stake check runs only where the configuration asks for it and the
/// snapshot reports any stake at all; it fails when the share of stake on
/// current validators is below the threshold.
pub open spec fn stake_check(snapshot: SnapshotView, config: ConfigView) -> Option<FailureView> {
    if config.monitor_active_stake && snapshot.total_stake() > 0 && stake_percent(snapshot)
        < config.stake_threshold_percent {
        Some(
            FailureView {
                kind: CheckKind::CurrentStake,
                message: stake_message(stake_percent(snapshot)),
            },
        )
    } else {
        None
    }
}

/// How the identity stands in the snapshot. The delinquent list is looked at
/// first.
pub open spec fn status_of(snapshot: SnapshotView, identity: Seq<char>) -> IdentityStatus {
    if lists_identity(snapshot.delinquent_validators, identity) {
        IdentityStatus::Delinquent
    } else if !lists_identity(snapshot.current_validators, identity) {
        IdentityStatus::Missing
    } else {
        IdentityStatus::Healthy
    }
}

/// What the delinquency check says of the first `n` watched identities: one
/// entry for each that is not healthy, in the order of the configuration.
pub open spec fn status_entries(snapshot: SnapshotView, watched: Seq<Seq<char>>, n: nat) -> Seq<
    Seq<char>,
>
    recommends
        n <= watched.len(),
    decreases n,
{
    if n == 0 {
        Seq::<Seq<char>>::empty()
    } else {
        let before = status_entries(snapshot, watched, (n - 1) as nat);
        let identity = watched[n - 1];
        match status_of(snapshot, identity) {
            IdentityStatus::Delinquent => before.push(delinquent_entry(identity)),
            IdentityStatus::Missing => before.push(missing_entry(identity)),
            IdentityStatus::Healthy => before,
        }
    }
}

/// The balance that was read for the watched identity at `index`. An
/// identity whose lookup failed, or for which nothing was handed in, has
/// none.
pub open spec fn balance_reading(balances: Seq<Option<u64>>, index: int) -> Option<u64> {
    if 0 <= index < balances.len() {
        balances[index]
    } else {
        None
    }
}

/// The balance failures of the first `n` watched identities, in the order of
/// the configuration: one for each whose balance was read and is below the
/// minimum. An identity without a reading gives none.
pub open spec fn balance_failures(
    watched: Seq<Seq<char>>,
    balances: Seq<Option<u64>>,
    min_balance: nat,
    n: nat,
) -> Seq<FailureView>
    recommends
        n <= watched.len(),
    decreases n,
{
    if n == 0 {
        Seq::<FailureView>::empty()
    } else {
        let before = balance_failures(watched, balances, min_balance, (n - 1) as nat);
        match balance_reading(balances, n - 1) {
            Some(lamports) => if lamports < min_balance {
                before.push(
                    FailureView {
                        kind: CheckKind::Balance,
                        message: balance_message(watched[n - 1], lamports as nat),
                    },
                )
            } else {
                before
            },
            None => before,
        }
    }
}

/// The one failure that gathers what the delinquency check says of the
/// watched identities, if it says anything.
pub open spec fn watched_delinquency(snapshot: SnapshotView, watched: Seq<Seq<char>>) -> Option<
    FailureView,
> {
    let entries = status_entries(snapshot, watched, watched.len());
    if entries.len() > 0 {
        Some(FailureView { kind: CheckKind::Delinquent, message: comma_joined(entries) })
    } else {
        None
    }
}

/// The failures of the delinquency check. With no watched identity it fails
/// when any validator is delinquent, and reports how many are. With watched
/// identities it gives their balance failures first, then the one failure
/// that gathers the identities that are delinquent or missing.
pub open spec fn delinquency_check(
    snapshot: SnapshotView,
    balances: Seq<Option<u64>>,
    config: ConfigView,
) -> Seq<FailureView> {
    if config.watched_identities.len() == 0 {
        if snapshot.delinquent_validators.len() > 0 {
            seq![
                FailureView {
                    kind: CheckKind::Delinquent,
                    message: delinquent_count_message(snapshot.delinquent_validators.len()),
                },
            ]
        } else {
            Seq::<FailureView>::empty()
        }
    } else {
        balance_failures(
            config.watched_identities,
            balances,
            config.min_balance_lamports,
            config.watched_identities.len(),
        ) + as_list(watched_delinquency(snapshot, config.watched_identities))
    }
}

/// All the failures of a snapshot, in the order in which the checks run.
pub open spec fn evaluation(
    snapshot: SnapshotView,
    balances: Seq<Option<u64>>,
    state: StateView,
    config: ConfigView,
) -> Seq<FailureView> {
    as_list(transaction_count_check(snapshot, state)) + as_list(blockhash_check(snapshot, state))
        + as_list(stake_check(snapshot, config)) + delinquency_check(snapshot, balances, config)
}

/// Checks that the transaction count is above the last one.
pub fn check_transaction_count(snapshot: &ClusterSnapshot, state: &MonitorState) -> (failure:
    Option<CheckFailure>)
    ensures
        option_view(failure) == transaction_count_check(snapshot@, state@),
{
    if snapshot.transaction_count() > state.last_transaction_count {
        None
    } else {
        Some(transaction_count_failure(snapshot.transaction_count(), state.last_transaction_count))
    }
}

/// Checks that the blockhash is not the last one again.
pub fn check_blockhash(snapshot: &ClusterSnapshot, state: &MonitorState) -> (failure: Option<
    CheckFailure,
>)
    ensures
        option_view(failure) == blockhash_check(snapshot@, state@),
{
    if snapshot.recent_blockhash().same_as(&state.last_blockhash) {
        let text = snapshot.recent_blockhash().text();
        Some(blockhash_failure(text.as_str()))
    } else {
        None
    }
}

/// The share of the stake that is on current validators, in percent, rounded
/// down; `None` for a snapshot without stake.
pub fn current_stake_percent(snapshot: &ClusterSnapshot) -> (percent: Option<u64>)
    ensures
        percent is Some <==> snapshot@.total_stake() > 0,
        percent matches Some(p) ==> p == stake_percent(snapshot@) && p <= 100,
{
    let current: u64 = snapshot.current_stake();
    let delinquent: u64 = snapshot.delinquent_stake();
    let total: u64 = current + delinquent;
    if total == 0 {
        None
    } else {
        let scaled: u128 = (current as u128) * 100;
        let percent: u128 = scaled / (total as u128);
        assert(percent <= 100) by (nonlinear_arith)
            requires
                percent == scaled / (total as u128),
                scaled == current * 100,
                current <= total,
                total > 0,
        ;
        Some(percent as u64)
    }
}

/// Checks the share of stake on current validators, where the configuration
/// asks for it.
pub fn check_stake(snapshot: &ClusterSnapshot, config: &MonitorConfig) -> (failure: Option<
    CheckFailure,
>)
    ensures
        option_view(failure) == stake_check(snapshot@, config@),
{
    if !config.monitor_active_stake {
        return None;
    }
    match current_stake_percent(snapshot) {
        Some(percent) => {
            if percent < config.stake_threshold_percent {
                Some(stake_failure(percent))
            } else {
                None
            }
        },
        None => None,
    }
}

/// Whether a validator with the given identity is among `accounts`.
pub fn is_listed(accounts: &Vec<VoteAccount>, identity: &String) -> (listed: bool)
    ensures
        listed == lists_identity(account_views(accounts@), identity@),
{
    let mut i: usize = 0;
    while i < accounts.len()
        invariant
            i <= accounts.len(),
            forall|j: int| 0 <= j < i ==> (#[trigger] account_views(accounts@)[j]).identity
                != identity@,
        decreases accounts.len() - i,
    {
        if accounts[i].identity == *identity {
            assert(account_views(accounts@)[i as int].identity == identity@);
            return true;
        }
        i += 1;
    }
    false
}

/// How the identity stands in the snapshot.
pub fn identity_status(snapshot: &ClusterSnapshot, identity: &String) -> (status: IdentityStatus)
    ensures
        status == status_of(snapshot@, identity@),
{
    if is_listed(snapshot.delinquent_validators(), identity) {
        IdentityStatus::Delinquent
    } else if !is_listed(snapshot.current_validators(), identity) {
        IdentityStatus::Missing
    } else {
        IdentityStatus::Healthy
    }
}

/// Checks the watched identities: the balance of each, then whether each is
/// current. The balances stand in the order of the watched identities;
/// `None` is a lookup that failed, and so is a reading that is not there.
pub fn check_watched(
    snapshot: &ClusterSnapshot,
    balances: &Vec<Option<u64>>,
    config: &MonitorConfig,
) -> (failures: Vec<CheckFailure>)
    ensures
        failure_views(failures@) == balance_failures(
            config@.watched_identities,
            balances@,
            config@.min_balance_lamports,
            config@.watched_identities.len(),
        ) + as_list(watched_delinquency(snapshot@, config@.watched_identities)),
{
    let ghost watched = config@.watched_identities;
    let mut failures: Vec<CheckFailure> = Vec::new();
    let mut entries: Vec<String> = Vec::new();
    let mut i: usize = 0;
    while i < config.watched_identities.len()
        invariant
            i <= config.watched_identities.len(),
            watched == config@.watched_identities,
            watched.len() == config.watched_identities.len(),
            texts_of(entries@) == status_entries(snapshot@, watched, i as nat),
            failure_views(failures@) == balance_failures(
                watched,
                balances@,
                config@.min_balance_lamports,
                i as nat,
            ),
        decreases config.watched_identities.len() - i,
    {
        let identity = &config.watched_identities[i];
        match identity_status(snapshot, identity) {
            IdentityStatus::Delinquent => {
                entries.push(delinquent_entry_text(identity));
            },
            IdentityStatus::Missing => {
                entries.push(missing_entry_text(identity));
            },
            IdentityStatus::Healthy => {},
        }
        if i < balances.len() {
            match balances[i] {
                Some(lamports) => {
                    if lamports < config.min_balance_lamports {
                        failures.push(balance_failure(identity, lamports));
                    }
                },
                None => {},
            }
        }
        i += 1;
    }
    if entries.len() > 0 {
        let message = join_with_commas(&entries);
        failures.push(CheckFailure { kind: CheckKind::Delinquent, message });
    }
    failures
}

/// Checks for delinquent validators: in the whole cluster where no identity
/// is watched, else among the watched identities, whose balances are checked
/// too.
pub fn check_delinquency(
    snapshot: &ClusterSnapshot,
    balances: &Vec<Option<u64>>,
    config: &MonitorConfig,
) -> (failures: Vec<CheckFailure>)
    ensures
        failure_views(failures@) == delinquency_check(snapshot@, balances@, config@),
{
    if config.watched_identities.len() == 0 {
        let mut failures: Vec<CheckFailure> = Vec::new();
        let delinquent = snapshot.delinquent_validators();
        if delinquent.len() > 0 {
            failures.push(delinquent_count_failure(delinquent.len()));
        }
        failures
    } else {
        check_watched(snapshot, balances, config)
    }
}

/// Runs all the checks on a snapshot and returns their failures in the order
/// in which the checks run. Neither the snapshot nor the state is changed.
pub fn evaluate(
    snapshot: &ClusterSnapshot,
    balances: &Vec<Option<u64>>,
    state: &MonitorState,
    config: &MonitorConfig,
) -> (failures: Vec<CheckFailure>)
    ensures
        failure_views(failures@) == evaluation(snapshot@, balances@, state@, config@),
{
    let mut failures: Vec<CheckFailure> = Vec::new();
    if let Some(failure) = check_transaction_count(snapshot, state) {
        failures.push(failure);
    }
    if let Some(failure) = check_blockhash(snapshot, state) {
        failures.push(failure);
    }
    if let Some(failure) = check_stake(snapshot, config) {
        failures.push(failure);
    }
    let mut rest = check_delinquency(snapshot, balances, config);
    failures.append(&mut rest);
    failures
}

} // verus!
