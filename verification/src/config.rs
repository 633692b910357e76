//! What the monitor is told at startup and never changes afterwards.

use crate::text::LAMPORTS_PER_SOL;
use crate::text::texts_of;
use vstd::prelude::*;

verus! {

/// Seconds between two cycles unless the operator says otherwise.
pub const DEFAULT_INTERVAL_SECS: u64 = 60;

/// The stake check fails when less than this share of the stake, in percent,
/// is on current validators.
pub const STAKE_THRESHOLD_PERCENT: u64 = 80;

/// The balance check fails for an identity that holds fewer lamports than
/// this: one SOL.
pub const MIN_BALANCE_LAMPORTS: u64 = LAMPORTS_PER_SOL;

/// The monitor's configuration.
#[derive(Debug, PartialEq, Eq)]
pub struct MonitorConfig {
    /// Seconds to sleep between two cycles.
    pub interval_secs: u64,
    /// Where the cluster is asked.
    pub rpc_endpoint: String,
    /// The identities to watch, in the order in which they are reported.
    /// Empty means that the whole cluster is watched.
    pub watched_identities: Vec<String>,
    /// Whether a notification that repeats the previous one is suppressed.
    pub dedup_enabled: bool,
    /// Whether the share of stake on current validators is checked.
    pub monitor_active_stake: bool,
    /// The share of stake, in percent, below which the stake check fails.
    pub stake_threshold_percent: u64,
    /// The balance, in lamports, below which the balance check fails.
    pub min_balance_lamports: u64,
}

/// A configuration as a value.
pub struct ConfigView {
    pub interval_secs: nat,
    pub rpc_endpoint: Seq<char>,
    pub watched_identities: Seq<Seq<char>>,
    pub dedup_enabled: bool,
    pub monitor_active_stake: bool,
    pub stake_threshold_percent: nat,
    pub min_balance_lamports: nat,
}

impl View for MonitorConfig {
    type V = ConfigView;

    open spec fn view(&self) -> ConfigView {
        ConfigView {
            interval_secs: self.interval_secs as nat,
            rpc_endpoint: self.rpc_endpoint@,
            watched_identities: texts_of(self.watched_identities@),
            dedup_enabled: self.dedup_enabled,
            monitor_active_stake: self.monitor_active_stake,
            stake_threshold_percent: self.stake_threshold_percent as nat,
            min_balance_lamports: self.min_balance_lamports as nat,
        }
    }
}

impl MonitorConfig {
    /// A configuration with the fixed thresholds: a stake share of 80 percent
    /// and a balance of one SOL.
    pub fn new(
        interval_secs: u64,
        rpc_endpoint: String,
        watched_identities: Vec<String>,
        dedup_enabled: bool,
        monitor_active_stake: bool,
    ) -> (config: MonitorConfig)
        ensures
            config@ == (ConfigView {
                interval_secs: interval_secs as nat,
                rpc_endpoint: rpc_endpoint@,
                watched_identities: texts_of(watched_identities@),
                dedup_enabled,
                monitor_active_stake,
                stake_threshold_percent: 80,
                min_balance_lamports: 1_000_000_000,
            }),
    {
        MonitorConfig {
            interval_secs,
            rpc_endpoint,
            watched_identities,
            dedup_enabled,
            monitor_active_stake,
            stake_threshold_percent: STAKE_THRESHOLD_PERCENT,
            min_balance_lamports: MIN_BALANCE_LAMPORTS,
        }
    }
}

} // verus!
