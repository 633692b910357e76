//! What a failed health check reports: its kind and a message.

use vstd::prelude::*;

verus! {

/// The kind of a failure: the health check that failed, or `Rpc` when the
/// snapshot could not be fetched at all.
#[derive(Clone, Copy, Debug, PartialEq, Eq, Structural)]
pub enum CheckKind {
    TransactionCount,
    RecentBlockhash,
    CurrentStake,
    Delinquent,
    Balance,
    Rpc,
}

/// The stable name of a kind, as it appears in notifications and telemetry.
pub open spec fn kind_name(kind: CheckKind) -> Seq<char> {
    match kind {
        CheckKind::TransactionCount => "transaction-count"@,
        CheckKind::RecentBlockhash => "recent-blockhash"@,
        CheckKind::CurrentStake => "current-stake"@,
        CheckKind::Delinquent => "delinquent"@,
        CheckKind::Balance => "balance"@,
        CheckKind::Rpc => "rpc"@,
    }
}

impl CheckKind {
    /// The stable name of this kind.
    pub fn name(&self) -> (name: &'static str)
        ensures
            name@ == kind_name(*self),
    {
        match self {
            CheckKind::TransactionCount => "transaction-count",
            CheckKind::RecentBlockhash => "recent-blockhash",
            CheckKind::CurrentStake => "current-stake",
            CheckKind::Delinquent => "delinquent",
            CheckKind::Balance => "balance",
            CheckKind::Rpc => "rpc",
        }
    }
}

/// One failed check.
#[derive(Debug, PartialEq, Eq)]
pub struct CheckFailure {
    pub kind: CheckKind,
    pub message: String,
}

/// A failure as a value: its kind and the characters of its message.
pub struct FailureView {
    pub kind: CheckKind,
    pub message: Seq<char>,
}

impl View for CheckFailure {
    type V = FailureView;

    open spec fn view(&self) -> FailureView {
        FailureView { kind: self.kind, message: self.message@ }
    }
}

/// The failures that a sequence holds, each as a value.
pub open spec fn failure_views(failures: Seq<CheckFailure>) -> Seq<FailureView> {
    failures.map_values(|f: CheckFailure| f@)
}

/// An optional failure as a value.
pub open spec fn option_view(failure: Option<CheckFailure>) -> Option<FailureView> {
    match failure {
        Some(f) => Some(f@),
        None => None,
    }
}

/// An optional failure as a list of at most one.
pub open spec fn as_list(failure: Option<FailureView>) -> Seq<FailureView> {
    match failure {
        Some(f) => seq![f],
        None => Seq::<FailureView>::empty(),
    }
}

/// The first of the failures, if there is one: the only one that a cycle
/// acts upon.
pub open spec fn first_failure(failures: Seq<FailureView>) -> Option<FailureView> {
    if failures.len() == 0 {
        None
    } else {
        Some(failures[0])
    }
}

impl CheckFailure {
    /// A failure of the given kind with the given message.
    pub fn new(kind: CheckKind, message: String) -> (failure: CheckFailure)
        ensures
            failure@ == (FailureView { kind, message: message@ }),
    {
        CheckFailure { kind, message }
    }
}

impl Clone for CheckFailure {
    fn clone(&self) -> (copy: CheckFailure)
        ensures
            copy@ == self@,
    {
        CheckFailure { kind: self.kind, message: self.message.clone() }
    }
}

} // verus!
