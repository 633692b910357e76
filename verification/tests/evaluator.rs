use watchtower::evaluate;
use watchtower::evaluator::check_blockhash;
use watchtower::evaluator::check_delinquency;
use watchtower::evaluator::check_stake;
use watchtower::evaluator::check_transaction_count;
use watchtower::evaluator::check_watched;
use watchtower::evaluator::current_stake_percent;
use watchtower::evaluator::identity_status;
use watchtower::evaluator::is_listed;
use watchtower::Blockhash;
use watchtower::CheckFailure;
use watchtower::CheckKind;
use watchtower::ClusterSnapshot;
use watchtower::IdentityStatus;
use watchtower::MonitorConfig;
use watchtower::MonitorState;
use watchtower::VoteAccount;

fn account(identity: &str, activated_stake: u64) -> VoteAccount {
    VoteAccount { identity: String::from(identity), activated_stake }
}

fn hash_of(byte: u8) -> Blockhash {
    Blockhash { bytes: [byte; 32] }
}

fn snapshot(count: u64, hash: Blockhash, current: Vec<VoteAccount>, delinquent: Vec<VoteAccount>) -> ClusterSnapshot {
    ClusterSnapshot::new(count, hash, current, delinquent).unwrap()
}

fn config(watched: &[&str], monitor_active_stake: bool) -> MonitorConfig {
    MonitorConfig::new(
        60,
        String::from("http://localhost:8899"),
        watched.iter().map(|s| String::from(*s)).collect(),
        false,
        monitor_active_stake,
    )
}

fn state(count: u64, hash: Blockhash) -> MonitorState {
    MonitorState { last_transaction_count: count, last_blockhash: hash, last_notification_message: String::new() }
}

fn failure(kind: CheckKind, message: &str) -> CheckFailure {
    CheckFailure { kind, message: String::from(message) }
}

#[test]
fn transaction_count_that_advances_passes() {
    let s = snapshot(11, hash_of(1), Vec::new(), Vec::new());
    assert_eq!(check_transaction_count(&s, &state(10, hash_of(0))), None);
}

#[test]
fn transaction_count_that_stands_still_fails() {
    let s = snapshot(10, hash_of(1), Vec::new(), Vec::new());
    assert_eq!(
        check_transaction_count(&s, &state(10, hash_of(0))),
        Some(failure(CheckKind::TransactionCount, "Transaction count is not advancing: 10 <= 10"))
    );
}

#[test]
fn transaction_count_that_goes_back_fails() {
    let s = snapshot(3, hash_of(1), Vec::new(), Vec::new());
    assert_eq!(
        check_transaction_count(&s, &state(1_000, hash_of(0))),
        Some(failure(CheckKind::TransactionCount, "Transaction count is not advancing: 3 <= 1000"))
    );
}

#[test]
fn transaction_count_of_zero_fails_at_the_start() {
    let s = snapshot(0, hash_of(1), Vec::new(), Vec::new());
    assert_eq!(
        check_transaction_count(&s, &MonitorState::new()),
        Some(failure(CheckKind::TransactionCount, "Transaction count is not advancing: 0 <= 0"))
    );
}

#[test]
fn blockhash_that_changed_passes() {
    let s = snapshot(1, hash_of(2), Vec::new(), Vec::new());
    assert_eq!(check_blockhash(&s, &state(0, hash_of(1))), None);
}

#[test]
fn blockhash_that_did_not_change_fails() {
    let s = snapshot(1, hash_of(255), Vec::new(), Vec::new());
    assert_eq!(
        check_blockhash(&s, &state(0, hash_of(255))),
        Some(failure(
            CheckKind::RecentBlockhash,
            "Unable to get new blockhash: JEKNVnkbo3jma5nREBBJCDoXFVeKkD56V3xKrvRmWxFG"
        ))
    );
}

#[test]
fn zero_blockhash_fails_at_the_start() {
    let s = snapshot(1, Blockhash::zero(), Vec::new(), Vec::new());
    assert_eq!(
        check_blockhash(&s, &MonitorState::new()),
        Some(failure(CheckKind::RecentBlockhash, "Unable to get new blockhash: 11111111111111111111111111111111"))
    );
}

#[test]
fn stake_percent_is_rounded_down() {
    let s = snapshot(1, hash_of(1), vec![account("a", 799)], vec![account("b", 201)]);
    assert_eq!(current_stake_percent(&s), Some(79));
    let s = snapshot(1, hash_of(1), vec![account("a", 1)], vec![account("b", 2)]);
    assert_eq!(current_stake_percent(&s), Some(33));
    let s = snapshot(1, hash_of(1), vec![account("a", 2)], vec![account("b", 1)]);
    assert_eq!(current_stake_percent(&s), Some(66));
    let s = snapshot(1, hash_of(1), vec![account("a", 999)], vec![account("b", 1)]);
    assert_eq!(current_stake_percent(&s), Some(99));
}

#[test]
fn stake_percent_of_the_extremes() {
    let s = snapshot(1, hash_of(1), vec![account("a", 5)], Vec::new());
    assert_eq!(current_stake_percent(&s), Some(100));
    let s = snapshot(1, hash_of(1), Vec::new(), vec![account("a", 5)]);
    assert_eq!(current_stake_percent(&s), Some(0));
    let s = snapshot(1, hash_of(1), vec![account("a", u64::MAX)], Vec::new());
    assert_eq!(current_stake_percent(&s), Some(100));
    let s = snapshot(1, hash_of(1), vec![account("a", u64::MAX - 1)], vec![account("b", 1)]);
    assert_eq!(current_stake_percent(&s), Some(99));
}

#[test]
fn stake_percent_sums_over_all_validators() {
    let s = snapshot(
        1,
        hash_of(1),
        vec![account("a", 10), account("b", 20), account("c", 30)],
        vec![account("d", 15), account("e", 25)],
    );
    assert_eq!(current_stake_percent(&s), Some(60));
}

#[test]
fn stake_percent_without_stake_is_none() {
    let s = snapshot(1, hash_of(1), Vec::new(), Vec::new());
    assert_eq!(current_stake_percent(&s), None);
    let s = snapshot(1, hash_of(1), vec![account("a", 0)], vec![account("b", 0)]);
    assert_eq!(current_stake_percent(&s), None);
}

#[test]
fn stake_at_the_threshold_passes() {
    let s = snapshot(1, hash_of(1), vec![account("a", 80)], vec![account("b", 20)]);
    assert_eq!(check_stake(&s, &config(&[], true)), None);
}

#[test]
fn stake_one_below_the_threshold_fails() {
    let s = snapshot(1, hash_of(1), vec![account("a", 79)], vec![account("b", 21)]);
    assert_eq!(
        check_stake(&s, &config(&[], true)),
        Some(failure(CheckKind::CurrentStake, "Current stake is 79%"))
    );
}

#[test]
fn stake_just_short_of_the_threshold_fails() {
    let s = snapshot(1, hash_of(1), vec![account("a", 7_999)], vec![account("b", 2_001)]);
    assert_eq!(
        check_stake(&s, &config(&[], true)),
        Some(failure(CheckKind::CurrentStake, "Current stake is 79%"))
    );
}

#[test]
fn stake_with_nothing_current_fails() {
    let s = snapshot(1, hash_of(1), Vec::new(), vec![account("b", 21)]);
    assert_eq!(
        check_stake(&s, &config(&[], true)),
        Some(failure(CheckKind::CurrentStake, "Current stake is 0%"))
    );
}

#[test]
fn stake_is_not_checked_unless_asked_for() {
    let s = snapshot(1, hash_of(1), vec![account("a", 1)], vec![account("b", 99)]);
    assert_eq!(check_stake(&s, &config(&[], false)), None);
}

#[test]
fn stake_check_is_skipped_without_stake() {
    let s = snapshot(1, hash_of(1), Vec::new(), Vec::new());
    assert_eq!(check_stake(&s, &config(&[], true)), None);
}

#[test]
fn stake_threshold_of_the_configuration_decides() {
    let s = snapshot(1, hash_of(1), vec![account("a", 50)], vec![account("b", 50)]);
    let mut c = config(&[], true);
    c.stake_threshold_percent = 50;
    assert_eq!(check_stake(&s, &c), None);
    c.stake_threshold_percent = 51;
    assert_eq!(check_stake(&s, &c), Some(failure(CheckKind::CurrentStake, "Current stake is 50%")));
}

#[test]
fn listed_identities() {
    let accounts = vec![account("a", 1), account("b", 2)];
    assert!(is_listed(&accounts, &String::from("a")));
    assert!(is_listed(&accounts, &String::from("b")));
    assert!(!is_listed(&accounts, &String::from("c")));
    assert!(!is_listed(&accounts, &String::from("")));
    assert!(!is_listed(&Vec::new(), &String::from("a")));
}

#[test]
fn status_of_identities() {
    let s = snapshot(
        1,
        hash_of(1),
        vec![account("well", 1), account("both", 1)],
        vec![account("late", 1), account("both", 1)],
    );
    assert_eq!(identity_status(&s, &String::from("well")), IdentityStatus::Healthy);
    assert_eq!(identity_status(&s, &String::from("late")), IdentityStatus::Delinquent);
    assert_eq!(identity_status(&s, &String::from("gone")), IdentityStatus::Missing);
    assert_eq!(identity_status(&s, &String::from("both")), IdentityStatus::Delinquent);
}

#[test]
fn whole_cluster_without_delinquent_validators_passes() {
    let s = snapshot(1, hash_of(1), vec![account("a", 1)], Vec::new());
    assert_eq!(check_delinquency(&s, &Vec::new(), &config(&[], false)), Vec::new());
}

#[test]
fn whole_cluster_reports_how_many_are_delinquent() {
    let s = snapshot(1, hash_of(1), vec![account("a", 1)], vec![account("b", 1), account("c", 1), account("d", 1)]);
    assert_eq!(
        check_delinquency(&s, &Vec::new(), &config(&[], false)),
        vec![failure(CheckKind::Delinquent, "3 delinquent validators")]
    );
}

#[test]
fn whole_cluster_ignores_balances() {
    let s = snapshot(1, hash_of(1), vec![account("a", 1)], Vec::new());
    assert_eq!(check_delinquency(&s, &vec![Some(0), None], &config(&[], false)), Vec::new());
}

#[test]
fn watched_identity_that_is_missing() {
    let s = snapshot(1, hash_of(1), vec![account("other", 1)], vec![account("another", 1)]);
    let found = check_delinquency(&s, &vec![Some(5_000_000_000)], &config(&["A"], false));
    assert_eq!(found, vec![failure(CheckKind::Delinquent, "A missing")]);
    assert!(found[0].message.contains("A missing"));
}

#[test]
fn watched_identity_that_is_delinquent() {
    let s = snapshot(1, hash_of(1), vec![account("other", 1)], vec![account("A", 1)]);
    let found = check_delinquency(&s, &vec![Some(5_000_000_000)], &config(&["A"], false));
    assert_eq!(found, vec![failure(CheckKind::Delinquent, "A delinquent")]);
    assert!(found[0].message.contains("A delinquent"));
}

#[test]
fn watched_identity_that_is_healthy() {
    let s = snapshot(1, hash_of(1), vec![account("A", 1)], vec![account("other", 1)]);
    assert_eq!(check_delinquency(&s, &vec![Some(1_000_000_000)], &config(&["A"], false)), Vec::new());
}

#[test]
fn healthy_identity_with_a_low_balance() {
    let s = snapshot(1, hash_of(1), vec![account("A", 1)], Vec::new());
    assert_eq!(
        check_delinquency(&s, &vec![Some(999_999_999)], &config(&["A"], false)),
        vec![failure(CheckKind::Balance, "A has 0.999999999 SOL")]
    );
}

#[test]
fn balance_of_exactly_the_minimum_passes() {
    let s = snapshot(1, hash_of(1), vec![account("A", 1)], Vec::new());
    assert_eq!(check_delinquency(&s, &vec![Some(1_000_000_000)], &config(&["A"], false)), Vec::new());
}

#[test]
fn empty_balance_fails() {
    let s = snapshot(1, hash_of(1), vec![account("A", 1)], Vec::new());
    assert_eq!(
        check_delinquency(&s, &vec![Some(0)], &config(&["A"], false)),
        vec![failure(CheckKind::Balance, "A has 0 SOL")]
    );
}

#[test]
fn balance_lookup_that_failed_gives_no_failure() {
    let s = snapshot(1, hash_of(1), vec![account("A", 1)], Vec::new());
    assert_eq!(check_delinquency(&s, &vec![None], &config(&["A"], false)), Vec::new());
}

#[test]
fn balance_that_was_not_handed_in_gives_no_failure() {
    let s = snapshot(1, hash_of(1), vec![account("A", 1), account("B", 1)], Vec::new());
    assert_eq!(check_delinquency(&s, &Vec::new(), &config(&["A", "B"], false)), Vec::new());
    assert_eq!(
        check_delinquency(&s, &vec![Some(1)], &config(&["A", "B"], false)),
        vec![failure(CheckKind::Balance, "A has 0.000000001 SOL")]
    );
}

#[test]
fn failed_lookup_does_not_hide_the_other_identities() {
    let s = snapshot(1, hash_of(1), vec![account("A", 1), account("B", 1), account("C", 1)], Vec::new());
    assert_eq!(
        check_delinquency(&s, &vec![Some(10), None, Some(500_000_000)], &config(&["A", "B", "C"], false)),
        vec![
            failure(CheckKind::Balance, "A has 0.00000001 SOL"),
            failure(CheckKind::Balance, "C has 0.5 SOL"),
        ]
    );
}

#[test]
fn missing_identity_with_a_low_balance_gives_both_failures() {
    let s = snapshot(1, hash_of(1), Vec::new(), Vec::new());
    assert_eq!(
        check_delinquency(&s, &vec![Some(250_000_000)], &config(&["A"], false)),
        vec![
            failure(CheckKind::Balance, "A has 0.25 SOL"),
            failure(CheckKind::Delinquent, "A missing"),
        ]
    );
}

#[test]
fn watched_identities_are_gathered_in_one_failure() {
    let s = snapshot(
        1,
        hash_of(1),
        vec![account("well", 1)],
        vec![account("late", 1), account("later", 1)],
    );
    let c = config(&["gone", "late", "well", "later"], false);
    assert_eq!(
        check_watched(&s, &vec![Some(2_000_000_000), Some(2_000_000_000), Some(2_000_000_000), Some(2_000_000_000)], &c),
        vec![failure(CheckKind::Delinquent, "gone missing,late delinquent,later delinquent")]
    );
}

#[test]
fn watched_identities_come_in_the_order_of_the_configuration() {
    let s = snapshot(1, hash_of(1), Vec::new(), vec![account("x", 1), account("y", 1)]);
    assert_eq!(
        check_watched(&s, &Vec::new(), &config(&["y", "x"], false)),
        vec![failure(CheckKind::Delinquent, "y delinquent,x delinquent")]
    );
    assert_eq!(
        check_watched(&s, &Vec::new(), &config(&["x", "y"], false)),
        vec![failure(CheckKind::Delinquent, "x delinquent,y delinquent")]
    );
}

#[test]
fn watched_identities_do_not_mind_other_delinquent_validators() {
    let s = snapshot(1, hash_of(1), vec![account("A", 1)], vec![account("x", 1), account("y", 1)]);
    assert_eq!(check_delinquency(&s, &vec![Some(1_000_000_000)], &config(&["A"], false)), Vec::new());
}

#[test]
fn minimum_balance_of_the_configuration_decides() {
    let s = snapshot(1, hash_of(1), vec![account("A", 1)], Vec::new());
    let mut c = config(&["A"], false);
    c.min_balance_lamports = 2_500_000_000;
    assert_eq!(
        check_delinquency(&s, &vec![Some(2_499_999_999)], &c),
        vec![failure(CheckKind::Balance, "A has 2.499999999 SOL")]
    );
    assert_eq!(check_delinquency(&s, &vec![Some(2_500_000_000)], &c), Vec::new());
}

#[test]
fn healthy_snapshot_has_no_failures() {
    let s = snapshot(5, hash_of(2), vec![account("a", 100)], Vec::new());
    assert_eq!(evaluate(&s, &Vec::new(), &state(4, hash_of(1)), &config(&[], true)), Vec::new());
}

#[test]
fn failures_come_in_the_order_of_the_checks() {
    let s = snapshot(5, hash_of(1), vec![account("a", 10)], vec![account("b", 90)]);
    assert_eq!(
        evaluate(&s, &Vec::new(), &state(5, hash_of(1)), &config(&[], true)),
        vec![
            failure(CheckKind::TransactionCount, "Transaction count is not advancing: 5 <= 5"),
            failure(
                CheckKind::RecentBlockhash,
                "Unable to get new blockhash: 4vJ9JU1bJJE96FWSJKvHsmmFADCg4gpZQff4P3bkLKi"
            ),
            failure(CheckKind::CurrentStake, "Current stake is 10%"),
            failure(CheckKind::Delinquent, "1 delinquent validators"),
        ]
    );
}

#[test]
fn failures_of_watched_identities_come_last() {
    let s = snapshot(5, hash_of(1), vec![account("a", 10)], vec![account("b", 90)]);
    assert_eq!(
        evaluate(&s, &vec![Some(1), Some(3_000_000_000)], &state(9, hash_of(2)), &config(&["a", "b"], true)),
        vec![
            failure(CheckKind::TransactionCount, "Transaction count is not advancing: 5 <= 9"),
            failure(CheckKind::CurrentStake, "Current stake is 10%"),
            failure(CheckKind::Balance, "a has 0.000000001 SOL"),
            failure(CheckKind::Delinquent, "b delinquent"),
        ]
    );
}

#[test]
fn evaluation_leaves_the_state_alone() {
    let s = snapshot(50, hash_of(3), vec![account("a", 10)], Vec::new());
    let before = state(4, hash_of(1));
    let kept = before.clone();
    evaluate(&s, &Vec::new(), &before, &config(&[], true));
    assert_eq!(before, kept);
}

#[test]
fn blockhash_failure_names_the_hash_of_the_snapshot() {
    let s = snapshot(5, hash_of(7), Vec::new(), Vec::new());
    let found = evaluate(&s, &Vec::new(), &state(1, hash_of(7)), &config(&[], false));
    let expected = format!(
        "Unable to get new blockhash: {}",
        solana_sdk::hash::Hash::new_from_array([7u8; 32])
    );
    assert_eq!(found, vec![failure(CheckKind::RecentBlockhash, &expected)]);
}
