//! One point-in-time reading of the cluster's health signals.

use crate::blockhash::Blockhash;
use vstd::prelude::*;

verus! {

/// A validator as the cluster reports it: the identity of its node and the
/// stake, in lamports, that is active on it.
#[derive(Debug, PartialEq, Eq)]
pub struct VoteAccount {
    pub identity: String,
    pub activated_stake: u64,
}

/// A validator as a value.
pub struct VoteAccountView {
    pub identity: Seq<char>,
    pub activated_stake: nat,
}

impl View for VoteAccount {
    type V = VoteAccountView;

    open spec fn view(&self) -> VoteAccountView {
        VoteAccountView { identity: self.identity@, activated_stake: self.activated_stake as nat }
    }
}

impl Clone for VoteAccount {
    fn clone(&self) -> (copy: VoteAccount)
        ensures
            copy@ == self@,
    {
        VoteAccount { identity: self.identity.clone(), activated_stake: self.activated_stake }
    }
}

/// The validators that a sequence holds, each as a value.
pub open spec fn account_views(accounts: Seq<VoteAccount>) -> Seq<VoteAccountView> {
    accounts.map_values(|a: VoteAccount| a@)
}

/// The stake of all the validators together.
pub open spec fn stake_sum(accounts: Seq<VoteAccountView>) -> nat
    decreases accounts.len(),
{
    if accounts.len() == 0 {
        0
    } else {
        stake_sum(accounts.drop_last()) + accounts.last().activated_stake
    }
}

/// Whether a validator with the given identity is among `accounts`.
pub open spec fn lists_identity(accounts: Seq<VoteAccountView>, identity: Seq<char>) -> bool {
    exists|i: int| 0 <= i < accounts.len() && (#[trigger] accounts[i]).identity == identity
}

/// A snapshot as a value.
pub struct SnapshotView {
    pub transaction_count: nat,
    pub recent_blockhash: Seq<u8>,
    pub current_validators: Seq<VoteAccountView>,
    pub delinquent_validators: Seq<VoteAccountView>,
}

impl SnapshotView {
    /// The stake on the validators that are current.
    pub open spec fn current_stake(self) -> nat {
        stake_sum(self.current_validators)
    }

    /// The stake on the validators that are delinquent.
    pub open spec fn delinquent_stake(self) -> nat {
        stake_sum(self.delinquent_validators)
    }

    /// All the stake that the snapshot reports.
    pub open spec fn total_stake(self) -> nat {
        self.current_stake() + self.delinquent_stake()
    }
}

/// A snapshot of the cluster. It is built once per cycle and never changed.
/// All the stake it reports fits in 64 bits, as every lamport amount of the
/// cluster does; the two sums are kept beside the lists.
#[derive(Debug, PartialEq, Eq)]
pub struct ClusterSnapshot {
    transaction_count: u64,
    recent_blockhash: Blockhash,
    current_validators: Vec<VoteAccount>,
    delinquent_validators: Vec<VoteAccount>,
    current_stake: u64,
    delinquent_stake: u64,
}

impl View for ClusterSnapshot {
    type V = SnapshotView;

    closed spec fn view(&self) -> SnapshotView {
        SnapshotView {
            transaction_count: self.transaction_count as nat,
            recent_blockhash: self.recent_blockhash@,
            current_validators: account_views(self.current_validators@),
            delinquent_validators: account_views(self.delinquent_validators@),
        }
    }
}

/// The stake of the first validators of a list is at most that of all of
/// them, and taking one more adds its stake.
pub proof fn lemma_stake_sum_prefix(accounts: Seq<VoteAccountView>, n: int)
    requires
        0 <= n <= accounts.len(),
    ensures
        stake_sum(accounts.take(n)) <= stake_sum(accounts),
        n < accounts.len() ==> stake_sum(accounts.take(n + 1)) == stake_sum(accounts.take(n))
            + accounts[n].activated_stake,
    decreases accounts.len(),
{
    if n < accounts.len() {
        assert(accounts.take(n + 1).drop_last() =~= accounts.take(n));
        assert(accounts.drop_last().take(n) =~= accounts.take(n));
        lemma_stake_sum_prefix(accounts.drop_last(), n);
    } else {
        assert(accounts.take(n) =~= accounts);
    }
}

/// The stake of all of `accounts` together, or `None` where it does not fit
/// in 64 bits.
pub fn total_activated_stake(accounts: &Vec<VoteAccount>) -> (total: Option<u64>)
    ensures
        match total {
            Some(sum) => sum == stake_sum(account_views(accounts@)),
            None => stake_sum(account_views(accounts@)) > u64::MAX,
        },
{
    let ghost all = account_views(accounts@);
    let mut sum: u64 = 0;
    let mut i: usize = 0;
    while i < accounts.len()
        invariant
            i <= accounts.len(),
            all == account_views(accounts@),
            sum == stake_sum(all.take(i as int)),
        decreases accounts.len() - i,
    {
        proof {
            lemma_stake_sum_prefix(all, i as int);
            lemma_stake_sum_prefix(all, i + 1);
        }
        match sum.checked_add(accounts[i].activated_stake) {
            Some(next) => {
                sum = next;
            },
            None => {
                return None;
            },
        }
        i += 1;
    }
    assert(all.take(accounts.len() as int) =~= all);
    Some(sum)
}

impl ClusterSnapshot {
    #[verifier::type_invariant]
    spec fn stakes_kept(&self) -> bool {
        &&& self.current_stake == stake_sum(account_views(self.current_validators@))
        &&& self.delinquent_stake == stake_sum(account_views(self.delinquent_validators@))
        &&& self.current_stake + self.delinquent_stake <= u64::MAX
    }

    /// A snapshot of the given readings, unless the stake of all validators
    /// together exceeds 64 bits.
    pub fn new(
        transaction_count: u64,
        recent_blockhash: Blockhash,
        current_validators: Vec<VoteAccount>,
        delinquent_validators: Vec<VoteAccount>,
    ) -> (snapshot: Option<ClusterSnapshot>)
        ensures
            snapshot is Some <==> stake_sum(account_views(current_validators@)) + stake_sum(
                account_views(delinquent_validators@),
            ) <= u64::MAX,
            snapshot matches Some(s) ==> s@ == (SnapshotView {
                transaction_count: transaction_count as nat,
                recent_blockhash: recent_blockhash@,
                current_validators: account_views(current_validators@),
                delinquent_validators: account_views(delinquent_validators@),
            }),
    {
        let current_stake = match total_activated_stake(&current_validators) {
            Some(sum) => sum,
            None => {
                return None;
            },
        };
        let delinquent_stake = match total_activated_stake(&delinquent_validators) {
            Some(sum) => sum,
            None => {
                return None;
            },
        };
        if current_stake > u64::MAX - delinquent_stake {
            return None;
        }
        Some(
            ClusterSnapshot {
                transaction_count,
                recent_blockhash,
                current_validators,
                delinquent_validators,
                current_stake,
                delinquent_stake,
            },
        )
    }

    /// The number of transactions that the cluster has processed.
    pub fn transaction_count(&self) -> (count: u64)
        ensures
            count == self@.transaction_count,
    {
        self.transaction_count
    }

    /// The blockhash that the cluster handed out most recently.
    pub fn recent_blockhash(&self) -> (hash: &Blockhash)
        ensures
            hash@ == self@.recent_blockhash,
    {
        &self.recent_blockhash
    }

    /// The validators that are current.
    pub fn current_validators(&self) -> (accounts: &Vec<VoteAccount>)
        ensures
            account_views(accounts@) == self@.current_validators,
    {
        &self.current_validators
    }

    /// The validators that are delinquent.
    pub fn delinquent_validators(&self) -> (accounts: &Vec<VoteAccount>)
        ensures
            account_views(accounts@) == self@.delinquent_validators,
    {
        &self.delinquent_validators
    }

    /// The stake on the current validators.
    pub fn current_stake(&self) -> (stake: u64)
        ensures
            stake == self@.current_stake(),
            self@.total_stake() <= u64::MAX,
    {
        proof {
            use_type_invariant(self);
        }
        self.current_stake
    }

    /// The stake on the delinquent validators.
    pub fn delinquent_stake(&self) -> (stake: u64)
        ensures
            stake == self@.delinquent_stake(),
            self@.total_stake() <= u64::MAX,
    {
        proof {
            use_type_invariant(self);
        }
        self.delinquent_stake
    }
}

} // verus!
