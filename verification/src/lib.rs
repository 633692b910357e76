//! Health evaluation and alerting for a cluster watchtower.
//!
//! One polling cycle turns a snapshot of the cluster into an ordered list of
//! check failures, acts upon the first of them, and decides whether a
//! notification is due. Every function here is free of I/O: fetching the
//! snapshot, delivering the notification and sleeping between cycles are the
//! caller's business.

pub mod blockhash;
pub mod config;
pub mod evaluator;
pub mod failure;
pub mod identity;
pub mod laws;
pub mod messages;
pub mod poller;
pub mod snapshot;
pub mod state;
pub mod text;
pub mod tracker;

pub use blockhash::Blockhash;
pub use config::MonitorConfig;
pub use evaluator::evaluate;
pub use evaluator::IdentityStatus;
pub use failure::CheckFailure;
pub use failure::CheckKind;
pub use identity::balance_account;
pub use identity::balance_accounts;
pub use poller::run_cycle;
pub use poller::CycleReport;
pub use poller::FetchOutcome;
pub use snapshot::ClusterSnapshot;
pub use snapshot::VoteAccount;
pub use state::MonitorState;
pub use tracker::reconcile;
pub use tracker::Reconciliation;
