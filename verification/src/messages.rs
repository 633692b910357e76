//! The wording of the failure messages and of the notifications.

use crate::blockhash::blockhash_display;
use crate::failure::kind_name;
use crate::failure::CheckFailure;
use crate::failure::CheckKind;
use crate::failure::FailureView;
use crate::text::decimal_digits;
use crate::text::push_decimal;
use crate::text::push_sol;
use crate::text::sol_digits;
use vstd::prelude::*;

verus! {

/// Message of the transaction count check.
pub open spec fn transaction_count_message(count: nat, last: nat) -> Seq<char> {
    "Transaction count is not advancing: "@ + decimal_digits(count) + " <= "@ + decimal_digits(
        last,
    )
}

/// Message of the blockhash check, given the text of the blockhash.
pub open spec fn blockhash_message_with(hash_text: Seq<char>) -> Seq<char> {
    "Unable to get new blockhash: "@ + hash_text
}

/// Message of the blockhash check.
pub open spec fn blockhash_message(hash: Seq<u8>) -> Seq<char> {
    blockhash_message_with(blockhash_display(hash))
}

/// Message of the stake check.
pub open spec fn stake_message(percent: nat) -> Seq<char> {
    "Current stake is "@ + decimal_digits(percent) + "%"@
}

/// Message of the delinquency check when the whole cluster is watched.
pub open spec fn delinquent_count_message(count: nat) -> Seq<char> {
    decimal_digits(count) + " delinquent validators"@
}

/// What the delinquency check says of a watched identity that is delinquent.
pub open spec fn delinquent_entry(identity: Seq<char>) -> Seq<char> {
    identity + " delinquent"@
}

/// What the delinquency check says of a watched identity that is in neither
/// list.
pub open spec fn missing_entry(identity: Seq<char>) -> Seq<char> {
    identity + " missing"@
}

/// Message of the balance check.
pub open spec fn balance_message(identity: Seq<char>, lamports: nat) -> Seq<char> {
    identity + " has "@ + sol_digits(lamports) + " SOL"@
}

/// The notification for a failure.
pub open spec fn error_notification(failure: FailureView) -> Seq<char> {
    "Error: "@ + kind_name(failure.kind) + ": "@ + failure.message
}

/// The notification that ends an alert.
pub open spec fn all_clear_notification() -> Seq<char> {
    "All clear"@
}

/// A notification for a failure is never empty, so it cannot be taken for
/// the clear state.
pub proof fn lemma_error_notification_not_empty(failure: FailureView)
    ensures
        error_notification(failure).len() > 0,
{
    reveal_strlit("Error: ");
}

/// The failure of the transaction count check.
pub fn transaction_count_failure(count: u64, last: u64) -> (failure: CheckFailure)
    ensures
        failure@ == (FailureView {
            kind: CheckKind::TransactionCount,
            message: transaction_count_message(count as nat, last as nat),
        }),
{
    let mut message = String::new();
    message.append("Transaction count is not advancing: ");
    push_decimal(&mut message, count);
    message.append(" <= ");
    push_decimal(&mut message, last);
    CheckFailure { kind: CheckKind::TransactionCount, message }
}

/// The failure of the blockhash check, given the text of the blockhash that
/// did not change.
pub fn blockhash_failure(hash_text: &str) -> (failure: CheckFailure)
    ensures
        failure@ == (FailureView {
            kind: CheckKind::RecentBlockhash,
            message: blockhash_message_with(hash_text@),
        }),
{
    let mut message = String::new();
    message.append("Unable to get new blockhash: ");
    message.append(hash_text);
    CheckFailure { kind: CheckKind::RecentBlockhash, message }
}

/// The failure of the stake check.
pub fn stake_failure(percent: u64) -> (failure: CheckFailure)
    ensures
        failure@ == (FailureView {
            kind: CheckKind::CurrentStake,
            message: stake_message(percent as nat),
        }),
{
    let mut message = String::new();
    message.append("Current stake is ");
    push_decimal(&mut message, percent);
    message.append("%");
    CheckFailure { kind: CheckKind::CurrentStake, message }
}

/// The failure of the delinquency check when the whole cluster is watched.
pub fn delinquent_count_failure(count: usize) -> (failure: CheckFailure)
    ensures
        failure@ == (FailureView {
            kind: CheckKind::Delinquent,
            message: delinquent_count_message(count as nat),
        }),
{
    let mut message = String::new();
    push_decimal(&mut message, count as u64);
    message.append(" delinquent validators");
    CheckFailure { kind: CheckKind::Delinquent, message }
}

/// What the delinquency check says of a delinquent identity.
pub fn delinquent_entry_text(identity: &String) -> (entry: String)
    ensures
        entry@ == delinquent_entry(identity@),
{
    let mut entry = identity.clone();
    entry.append(" delinquent");
    entry
}

/// What the delinquency check says of a missing identity.
pub fn missing_entry_text(identity: &String) -> (entry: String)
    ensures
        entry@ == missing_entry(identity@),
{
    let mut entry = identity.clone();
    entry.append(" missing");
    entry
}

/// The failure of the balance check.
pub fn balance_failure(identity: &String, lamports: u64) -> (failure: CheckFailure)
    ensures
        failure@ == (FailureView {
            kind: CheckKind::Balance,
            message: balance_message(identity@, lamports as nat),
        }),
{
    let mut message = identity.clone();
    message.append(" has ");
    push_sol(&mut message, lamports);
    message.append(" SOL");
    CheckFailure { kind: CheckKind::Balance, message }
}

/// The failure that stands for a snapshot that could not be fetched.
pub fn rpc_failure(error_text: String) -> (failure: CheckFailure)
    ensures
        failure@ == (FailureView { kind: CheckKind::Rpc, message: error_text@ }),
{
    CheckFailure { kind: CheckKind::Rpc, message: error_text }
}

/// The notification for a failure.
pub fn error_notification_text(failure: &CheckFailure) -> (text: String)
    ensures
        text@ == error_notification(failure@),
        text@.len() > 0,
{
    let mut text = String::new();
    text.append("Error: ");
    text.append(failure.kind.name());
    text.append(": ");
    text.append(failure.message.as_str());
    proof {
        lemma_error_notification_not_empty(failure@);
    }
    text
}

/// The notification that ends an alert.
pub fn all_clear_text() -> (text: String)
    ensures
        text@ == all_clear_notification(),
{
    let mut text = String::new();
    text.append("All clear");
    text
}

} // verus!
