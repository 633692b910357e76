//! What the monitor remembers from one cycle to the next.

use crate::blockhash::Blockhash;
use crate::snapshot::ClusterSnapshot;
use crate::snapshot::SnapshotView;
use vstd::prelude::*;

verus! {

/// The monitor's memory. It starts out with a transaction count of zero, the
/// all-zero blockhash and no notification; nothing of it outlives the
/// process. The last notification message is empty exactly when no alert is
/// firing.
#[derive(Debug, PartialEq, Eq)]
pub struct MonitorState {
    /// The highest transaction count seen so far.
    pub last_transaction_count: u64,
    /// The blockhash of the last snapshot that brought a new one.
    pub last_blockhash: Blockhash,
    /// The message of the alert that is firing; empty when none is.
    pub last_notification_message: String,
}

/// A state as a value.
pub struct StateView {
    pub last_transaction_count: nat,
    pub last_blockhash: Seq<u8>,
    pub last_notification_message: Seq<char>,
}

impl View for MonitorState {
    type V = StateView;

    open spec fn view(&self) -> StateView {
        StateView {
            last_transaction_count: self.last_transaction_count as nat,
            last_blockhash: self.last_blockhash@,
            last_notification_message: self.last_notification_message@,
        }
    }
}

impl Clone for MonitorState {
    fn clone(&self) -> (copy: MonitorState)
        ensures
            copy@ == self@,
    {
        MonitorState {
            last_transaction_count: self.last_transaction_count,
            last_blockhash: self.last_blockhash,
            last_notification_message: self.last_notification_message.clone(),
        }
    }
}

impl StateView {
    /// The state in which the monitor starts.
    pub open spec fn initial() -> StateView {
        StateView {
            last_transaction_count: 0,
            last_blockhash: Seq::new(32, |i: int| 0u8),
            last_notification_message: Seq::<char>::empty(),
        }
    }

    /// Whether an alert is firing.
    pub open spec fn alerting(self) -> bool {
        self.last_notification_message.len() > 0
    }

    /// Whether the snapshot's transaction count is above the last one.
    pub open spec fn count_advances(self, snapshot: SnapshotView) -> bool {
        snapshot.transaction_count > self.last_transaction_count
    }

    /// Whether the snapshot's blockhash differs from the last one.
    pub open spec fn blockhash_rotates(self, snapshot: SnapshotView) -> bool {
        snapshot.recent_blockhash != self.last_blockhash
    }

    /// The state after the snapshot's counters have been taken in: the
    /// transaction count only ever goes up, and the blockhash is the
    /// snapshot's. The notification message is left alone.
    pub open spec fn observe(self, snapshot: SnapshotView) -> StateView {
        StateView {
            last_transaction_count: if self.count_advances(snapshot) {
                snapshot.transaction_count
            } else {
                self.last_transaction_count
            },
            last_blockhash: snapshot.recent_blockhash,
            last_notification_message: self.last_notification_message,
        }
    }
}

impl MonitorState {
    /// The state in which the monitor starts.
    pub fn new() -> (state: MonitorState)
        ensures
            state@ == StateView::initial(),
            !state@.alerting(),
    {
        MonitorState {
            last_transaction_count: 0,
            last_blockhash: Blockhash::zero(),
            last_notification_message: String::new(),
        }
    }

    /// Whether an alert is firing.
    pub fn is_alerting(&self) -> (alerting: bool)
        ensures
            alerting == self@.alerting(),
    {
        !self.last_notification_message.as_str().is_empty()
    }

    /// Takes in the snapshot's counters: a transaction count above the last
    /// one replaces it, and so does a blockhash that differs from the last
    /// one.
    pub fn observe(&mut self, snapshot: &ClusterSnapshot)
        ensures
            final(self)@ == old(self)@.observe(snapshot@),
    {
        if snapshot.transaction_count() > self.last_transaction_count {
            self.last_transaction_count = snapshot.transaction_count();
        }
        if !snapshot.recent_blockhash().same_as(&self.last_blockhash) {
            self.last_blockhash = *snapshot.recent_blockhash();
        }
    }
}

} // verus!
