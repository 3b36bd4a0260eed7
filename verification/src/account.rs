//! The record that a token keeps for each account.

use vstd::prelude::*;
use std::collections::BTreeMap;
use vstd::std_specs::btree::{increasing_seq, spec_btree_map_iter};
use vstd::std_specs::cmp::OrdSpec;
use vstd::std_specs::iter::IteratorSpec;
use crate::error::Error;
use crate::sums::{keys_of, keys_sum, map_sum, saturated};
use crate::sums::{lemma_entries_cover, lemma_keys_sum_all, lemma_keys_sum_step};
use crate::sums::{lemma_map_sum_insert, lemma_map_sum_without};
use crate::fixed_point::{mul_floor, PERMILL_ACCURACY};
use crate::vesting::lemma_locks_bounded;
use crate::vesting::{saturating_balance_add, VestingSchedule, VestingSource};
use crate::{Balance, BlockNumber, JoyBalance};

verus! {

/// Represent's account's split staking status
#[derive(Clone, Copy, Debug, PartialEq, Eq, PartialOrd, Ord)]
pub struct StakingStatus<Balance> {
    /// Id of the split
    pub split_id: u32,
    /// The amount staked for the split
    pub amount: Balance,
}

impl<Balance: Copy> StakingStatus<Balance> {
    /// The amount that the stake locks. It does not change with time: a stake
    /// is released by leaving the split.
    pub fn locks<BlockNumber>(&self, _b: BlockNumber) -> (r: Balance)
        ensures
            r == self.amount,
    {
        self.amount
    }
}

/// What each schedule of a table locks at block `b`.
pub open spec fn locked_amounts(schedules: Map<u64, VestingSchedule>, b: BlockNumber) -> Map<
    u64,
    nat,
> {
    schedules.map_values(|s: VestingSchedule| s.spec_locks(b) as nat)
}

/// Whether `key` is the least key of the table whose schedule is finished at
/// block `b`.
pub open spec fn is_first_finished(
    schedules: Map<u64, VestingSchedule>,
    b: BlockNumber,
    key: u64,
) -> bool {
    &&& schedules.contains_key(key)
    &&& schedules[key].spec_is_finished(b)
    &&& forall|j: u64| schedules.contains_key(j) && schedules[j].spec_is_finished(b) ==> key <= j
}

/// The source with the least key among those whose schedule is finished at
/// block `b`, where there is one.
pub open spec fn first_finished(schedules: Map<u64, VestingSchedule>, b: BlockNumber) -> Option<
    VestingSource,
> {
    if exists|k: u64| is_first_finished(schedules, b, k) {
        VestingSource::spec_from_key(choose|k: u64| is_first_finished(schedules, b, k))
    } else {
        None
    }
}

/// What a check before adding a schedule under `source` answers: the error
/// where the table is full, the source is new and nothing can be evicted;
/// else the schedule to evict, which is named only where the table is full.
pub open spec fn add_or_update_check(
    schedules: Map<u64, VestingSchedule>,
    b: BlockNumber,
    source: VestingSource,
    max_schedules: usize,
) -> Result<Option<VestingSource>, Error> {
    let full = schedules.len() == max_schedules;
    let candidate = first_finished(schedules, b);
    if !schedules.contains_key(source.spec_key()) && full && candidate is None {
        Err(Error::MaxVestingSchedulesPerAccountPerTokenReached)
    } else if full {
        Ok(candidate)
    } else {
        Ok(None)
    }
}

/// Two grants from one source as one schedule: both amounts are summed, the
/// dates of the earlier grant stay.
pub open spec fn merged(old: VestingSchedule, new: VestingSchedule) -> VestingSchedule {
    VestingSchedule {
        linear_vesting_start_block: old.linear_vesting_start_block,
        linear_vesting_duration: old.linear_vesting_duration,
        cliff_amount: saturating_balance_add(old.cliff_amount, new.cliff_amount),
        post_cliff_total_amount: saturating_balance_add(
            old.post_cliff_total_amount,
            new.post_cliff_total_amount,
        ),
    }
}

/// The table after a grant from `source`: merged into the schedule of that
/// source where it has one; else filed as a new entry, after the eviction of
/// `cleanup` where one is named.
pub open spec fn added_or_updated(
    schedules: Map<u64, VestingSchedule>,
    source: VestingSource,
    new: VestingSchedule,
    cleanup: Option<VestingSource>,
) -> Map<u64, VestingSchedule> {
    let key = source.spec_key();
    if schedules.contains_key(key) {
        schedules.insert(key, merged(schedules[key], new))
    } else {
        match cleanup {
            Some(evicted) => schedules.remove(evicted.spec_key()).insert(key, new),
            None => schedules.insert(key, new),
        }
    }
}

/// The table that a list of schedules fills, entry after entry: a later
/// entry for a source replaces an earlier one.
pub open spec fn table_of(entries: Seq<(VestingSource, VestingSchedule)>) -> Map<
    u64,
    VestingSchedule,
>
    decreases entries.len(),
{
    if entries.len() == 0 {
        Map::empty()
    } else {
        table_of(entries.drop_last()).insert(entries.last().0.spec_key(), entries.last().1)
    }
}

/// Info for the account
#[derive(Debug, PartialEq, Eq)]
pub struct AccountData {
    /// Map that represents account's vesting schedules indexed by the key of
    /// their source.
    /// Account's total unvested (locked) balance at current block (b)
    /// can be calculated by summing `v.locks()` of all
    /// VestingSchedule (v) instances in the map.
    pub(crate) vesting_schedules: BTreeMap<u64, VestingSchedule>,
    /// Represents total amount of tokens held by the account, including
    /// unvested and staked tokens.
    pub(crate) amount: Balance,
    /// Account's current split staking status
    pub(crate) split_staking_status: Option<StakingStatus<Balance>>,
    /// Bloat bond (in 'JOY's) deposited into treasury upon creation of this
    /// account, returned when this account is removed
    pub(crate) bloat_bond: JoyBalance,
}

impl AccountData {
    /// Every key of the table is the key of a source.
    #[verifier::type_invariant]
    pub closed spec fn wf(&self) -> bool {
        forall|k: u64| #[trigger]
            self.vesting_schedules@.contains_key(k) ==> VestingSource::spec_from_key(k) is Some
    }

    /// The vesting schedules, each under the key of its source.
    pub closed spec fn schedules(&self) -> Map<u64, VestingSchedule> {
        self.vesting_schedules@
    }

    pub closed spec fn spec_amount(&self) -> Balance {
        self.amount
    }

    pub closed spec fn spec_split_staking_status(&self) -> Option<StakingStatus<Balance>> {
        self.split_staking_status
    }

    pub closed spec fn spec_bloat_bond(&self) -> JoyBalance {
        self.bloat_bond
    }

    /// The sum of what the schedules lock at block `b`, capped at the largest
    /// balance.
    pub open spec fn spec_unvested(&self, b: BlockNumber) -> Balance {
        saturated(map_sum(locked_amounts(self.schedules(), b)))
    }

    pub open spec fn spec_staked(&self, b: BlockNumber) -> Balance {
        match self.spec_split_staking_status() {
            Some(status) => status.amount,
            None => 0,
        }
    }

    /// What is held beyond the larger of the two locks.
    pub open spec fn spec_transferrable(&self, b: BlockNumber) -> Balance {
        let unvested = self.spec_unvested(b);
        let staked = self.spec_staked(b);
        let locked = if unvested >= staked { unvested } else { staked };
        if self.spec_amount() >= locked {
            (self.spec_amount() - locked) as Balance
        } else {
            0
        }
    }

    /// A valid account has schedules under keys of sources only, and finitely
    /// many of them.
    pub proof fn lemma_wf(&self)
        requires
            self.wf(),
        ensures
            self.schedules().dom().finite(),
            forall|k: u64| #[trigger]
                self.schedules().contains_key(k) ==> VestingSource::spec_from_key(k) is Some,
    {
    }

    #[verifier::when_used_as_spec(spec_amount)]
    pub fn amount(&self) -> (r: Balance)
        ensures
            r == self.spec_amount(),
    {
        self.amount
    }

    #[verifier::when_used_as_spec(spec_bloat_bond)]
    pub fn bloat_bond(&self) -> (r: JoyBalance)
        ensures
            r == self.spec_bloat_bond(),
    {
        self.bloat_bond
    }

    #[verifier::when_used_as_spec(spec_split_staking_status)]
    pub fn split_staking_status(&self) -> (r: Option<StakingStatus<Balance>>)
        ensures
            r == self.spec_split_staking_status(),
    {
        self.split_staking_status
    }

    /// The schedule filed under `source`, where there is one.
    pub fn vesting_schedule(&self, source: VestingSource) -> (r: Option<VestingSchedule>)
        ensures
            r == (if self.schedules().contains_key(source.spec_key()) {
                Some(self.schedules()[source.spec_key()])
            } else {
                None
            }),
    {
        let key = source.key();
        match self.vesting_schedules.get(&key) {
            Some(schedule) => Some(*schedule),
            None => None,
        }
    }

    /// The number of schedules.
    pub fn vesting_schedules_len(&self) -> (r: usize)
        ensures
            r == self.schedules().len(),
    {
        self.vesting_schedules.len()
    }

    /// Ctor
    pub fn new_with_amount_and_bond(amount: Balance, bloat_bond: JoyBalance) -> (r: Self)
        ensures
            r.wf(),
            r.schedules() == Map::<u64, VestingSchedule>::empty(),
            r.spec_amount() == amount,
            r.spec_split_staking_status() is None,
            r.spec_bloat_bond() == bloat_bond,
    {
        AccountData {
            vesting_schedules: BTreeMap::new(),
            amount,
            split_staking_status: None,
            bloat_bond,
        }
    }

    pub fn new_with_vesting_and_bond(
        source: VestingSource,
        schedule: VestingSchedule,
        bloat_bond: JoyBalance,
    ) -> (r: Self)
        ensures
            r.wf(),
            r.schedules() == Map::<u64, VestingSchedule>::empty().insert(
                source.spec_key(),
                schedule,
            ),
            r.spec_amount() == schedule.spec_total_amount(),
            r.spec_split_staking_status() is None,
            r.spec_bloat_bond() == bloat_bond,
    {
        let mut vesting_schedules: BTreeMap<u64, VestingSchedule> = BTreeMap::new();
        vesting_schedules.insert(source.key(), schedule);
        AccountData {
            amount: schedule.total_amount(),
            vesting_schedules,
            bloat_bond,
            split_staking_status: None,
        }
    }

    /// An account from what a record of it holds.
    pub fn from_parts(
        vesting_schedules: Vec<(VestingSource, VestingSchedule)>,
        amount: Balance,
        split_staking_status: Option<StakingStatus<Balance>>,
        bloat_bond: JoyBalance,
    ) -> (r: Self)
        ensures
            r.wf(),
            r.schedules() == table_of(vesting_schedules@),
            r.spec_amount() == amount,
            r.spec_split_staking_status() == split_staking_status,
            r.spec_bloat_bond() == bloat_bond,
    {
        let mut table: BTreeMap<u64, VestingSchedule> = BTreeMap::new();
        let mut i: usize = 0;
        while i < vesting_schedules.len()
            invariant
                i <= vesting_schedules.len(),
                table@ == table_of(vesting_schedules@.take(i as int)),
                forall|k: u64| #[trigger]
                    table@.contains_key(k) ==> VestingSource::spec_from_key(k) is Some,
            decreases vesting_schedules.len() - i,
        {
            let (source, schedule) = vesting_schedules[i];
            table.insert(source.key(), schedule);
            i += 1;
            proof {
                let prefix = vesting_schedules@.take(i as int);
                assert(prefix.drop_last() == vesting_schedules@.take(i - 1));
                assert(prefix.last() == vesting_schedules@[i - 1]);
            }
        }
        assert(vesting_schedules@.take(i as int) == vesting_schedules@);
        AccountData { vesting_schedules: table, amount, split_staking_status, bloat_bond }
    }

    /// The schedules with their sources, in the order of the sources: the
    /// whole table, each source once.
    pub fn vesting_schedules(&self) -> (r: Vec<(VestingSource, VestingSchedule)>)
        ensures
            r@.len() == self.schedules().len(),
            forall|i: int|
                0 <= i < r@.len() ==> self.schedules().contains_key(
                    (#[trigger] r@[i]).0.spec_key(),
                ) && self.schedules()[r@[i].0.spec_key()] == r@[i].1,
            forall|i: int, j: int|
                0 <= i < j < r@.len() ==> (#[trigger] r@[i]).0.spec_key() < (
                #[trigger] r@[j]).0.spec_key(),
            forall|k: u64|
                self.schedules().contains_key(k) ==> exists|i: int|
                    0 <= i < r@.len() && (#[trigger] r@[i]).0.spec_key() == k,
    {
        proof {
            use_type_invariant(self);
        }
        let mut out: Vec<(VestingSource, VestingSchedule)> = Vec::new();
        let ghost entries = spec_btree_map_iter(&self.vesting_schedules).remaining();
        let ghost keys = entries.map_values(|kv: (&u64, &VestingSchedule)| *kv.0);
        let ghost mut n: int = 0;
        for entry in it: self.vesting_schedules.iter()
            invariant
                self.wf(),
                entries.no_duplicates(),
                it.seq() == entries,
                entries == spec_btree_map_iter(&self.vesting_schedules).remaining(),
                keys == entries.map_values(|kv: (&u64, &VestingSchedule)| *kv.0),
                increasing_seq(keys),
                n == it.index(),
                out@.len() == n,
                forall|i: int|
                    0 <= i < n ==> (#[trigger] out@[i]).0.spec_key() == *entries[i].0 && out@[i].1
                        == *entries[i].1,
        {
            let (key, schedule) = entry;
            proof {
                assert(self.vesting_schedules@.contains_key(*entries[n].0));
            }
            match VestingSource::from_key(*key) {
                Some(source) => {
                    out.push((source, *schedule));
                },
                None => {},
            }
            proof {
                n = n + 1;
            }
        }
        proof {
            let schedules = self.vesting_schedules@;
            lemma_entries_cover(schedules, entries);
            assert forall|i: int| 0 <= i < out@.len() implies schedules.contains_key(
                (#[trigger] out@[i]).0.spec_key(),
            ) && schedules[out@[i].0.spec_key()] == out@[i].1 by {
                assert(schedules.contains_key(*entries[i].0));
            }
            assert forall|i: int, j: int| 0 <= i < j < out@.len() implies (#[trigger] out@[i]).0.spec_key()
                < (#[trigger] out@[j]).0.spec_key() by {
                assert(keys[i] == *entries[i].0);
                assert(keys[j] == *entries[j].0);
                assert(vstd::laws_cmp::obeys_cmp::<u64>());
                assert(keys[i].cmp_spec(&keys[j]) is Less);
            }
            assert forall|k: u64| schedules.contains_key(k) implies exists|i: int|
                0 <= i < out@.len() && (#[trigger] out@[i]).0.spec_key() == k by {
                assert(keys_of(entries).to_set().contains(k));
                let i = choose|i: int| 0 <= i < keys_of(entries).len() && keys_of(entries)[i] == k;
                assert(out@[i].0.spec_key() == k);
            }
        }
        out
    }

    /// Check whether an account is empty
    pub fn is_empty(&self) -> (r: bool)
        ensures
            r == (self.spec_amount() == 0),
    {
        self.amount == 0
    }

    /// Calculate account's unvested balance at block `b`
    #[verifier::when_used_as_spec(spec_unvested)]
    pub fn unvested(&self, b: BlockNumber) -> (r: Balance)
        ensures
            r == self.spec_unvested(b),
    {
        let mut acc: Balance = 0;
        let ghost weights = locked_amounts(self.vesting_schedules@, b);
        let ghost entries = spec_btree_map_iter(&self.vesting_schedules).remaining();
        let ghost mut n: int = 0;
        for entry in it: self.vesting_schedules.iter()
            invariant
                entries.no_duplicates(),
                it.seq() == entries,
                entries == spec_btree_map_iter(&self.vesting_schedules).remaining(),
                weights == locked_amounts(self.vesting_schedules@, b),
                n == it.index(),
                acc == saturated(keys_sum(weights, keys_of(entries).take(n))),
        {
            let (_key, schedule) = entry;
            proof {
                lemma_keys_sum_step(weights, keys_of(entries), n);
                assert(self.vesting_schedules@.contains_key(*entries[n].0));
                n = n + 1;
            }
            acc = acc.saturating_add(schedule.locks(b));
        }
        proof {
            lemma_entries_cover(self.vesting_schedules@, entries);
            assert(keys_of(entries).take(n) == keys_of(entries));
            assert(weights.dom() == self.vesting_schedules@.dom());
            lemma_keys_sum_all(weights, keys_of(entries));
        }
        acc
    }

    /// Calculate account's staked balance at block `b`
    #[verifier::when_used_as_spec(spec_staked)]
    pub fn staked(&self, b: BlockNumber) -> (r: Balance)
        ensures
            r == self.spec_staked(b),
    {
        match &self.split_staking_status {
            Some(status) => status.locks(b),
            None => 0,
        }
    }

    /// Calculate account's transferrable balance at block `b`
    #[verifier::when_used_as_spec(spec_transferrable)]
    pub fn transferrable(&self, b: BlockNumber) -> (r: Balance)
        ensures
            r == self.spec_transferrable(b),
            r <= self.spec_amount(),
    {
        let unvested = self.unvested(b);
        let staked = self.staked(b);
        let locked = if unvested >= staked { unvested } else { staked };
        self.amount.saturating_sub(locked)
    }

    /// Ensure that given amount of tokens can be transferred from the account at block `b`
    pub fn ensure_can_transfer(&self, b: BlockNumber, amount: Balance) -> (r: Result<(), Error>)
        ensures
            r == (if self.spec_transferrable(b) >= amount {
                Ok::<(), Error>(())
            } else {
                Err(Error::InsufficientTransferrableBalance)
            }),
    {
        if self.transferrable(b) >= amount {
            Ok(())
        } else {
            Err(Error::InsufficientTransferrableBalance)
        }
    }

    /// The source with the least key whose schedule is finished at block
    /// `b`: the one that makes room where the table is full.
    pub fn cleanup_candidate(&self, b: BlockNumber) -> (r: Option<VestingSource>)
        ensures
            r == first_finished(self.schedules(), b),
    {
        proof {
            use_type_invariant(self);
        }
        let ghost entries = spec_btree_map_iter(&self.vesting_schedules).remaining();
        let ghost keys = entries.map_values(|kv: (&u64, &VestingSchedule)| *kv.0);
        let ghost mut n: int = 0;
        for entry in it: self.vesting_schedules.iter()
            invariant
                self.wf(),
                it.seq() == entries,
                entries == spec_btree_map_iter(&self.vesting_schedules).remaining(),
                keys == entries.map_values(|kv: (&u64, &VestingSchedule)| *kv.0),
                increasing_seq(keys),
                n == it.index(),
                forall|i: int| 0 <= i < n ==> !(#[trigger] entries[i]).1.spec_is_finished(b),
        {
            let (key, schedule) = entry;
            if schedule.is_finished(b) {
                proof {
                    let schedules = self.vesting_schedules@;
                    assert(schedules.contains_key(*entries[n].0));
                    assert forall|j: u64|
                        schedules.contains_key(j) && schedules[j].spec_is_finished(
                            b,
                        ) implies *key <= j by {
                        let e = (&j, &schedules[j]);
                        assert(entries.contains(e));
                        let i = choose|i: int| 0 <= i < entries.len() && entries[i] == e;
                        if i < n {
                            assert(!entries[i].1.spec_is_finished(b));
                        } else if i > n {
                            assert(keys[n] == *key);
                            assert(keys[i] == j);
                            assert(vstd::laws_cmp::obeys_cmp::<u64>());
                            assert(keys[n].cmp_spec(&keys[i]) is Less);
                        }
                    }
                    assert(is_first_finished(schedules, b, *key));
                    let chosen = choose|k: u64| is_first_finished(schedules, b, k);
                    assert(chosen == *key);
                }
                return VestingSource::from_key(*key);
            }
            proof {
                n = n + 1;
            }
        }
        proof {
            let schedules = self.vesting_schedules@;
            assert forall|j: u64| schedules.contains_key(j) implies !schedules[j].spec_is_finished(
                b,
            ) by {
                let e = (&j, &schedules[j]);
                assert(entries.contains(e));
                let i = choose|i: int| 0 <= i < entries.len() && entries[i] == e;
                assert(!entries[i].1.spec_is_finished(b));
            }
        }
        None
    }

    /// Whether a schedule can be added under `source` at block `b`, where an
    /// account holds at most `max_schedules` of them, and which schedule has
    /// to make room for it.
    pub fn ensure_can_add_or_update_vesting_schedule(
        &self,
        b: BlockNumber,
        source: VestingSource,
        max_schedules: usize,
    ) -> (r: Result<Option<VestingSource>, Error>)
        ensures
            r == add_or_update_check(self.schedules(), b, source, max_schedules),
    {
        let key = source.key();
        let new_entry_required = !self.vesting_schedules.contains_key(&key);
        let cleanup_required = self.vesting_schedules.len() == max_schedules;
        let cleanup_candidate = self.cleanup_candidate(b);

        if new_entry_required && cleanup_required && cleanup_candidate.is_none() {
            return Err(Error::MaxVestingSchedulesPerAccountPerTokenReached);
        }
        if cleanup_required {
            Ok(cleanup_candidate)
        } else {
            Ok(None)
        }
    }

    /// Takes the table out of the account, which is left with an empty one.
    fn take_schedules(&mut self) -> (table: BTreeMap<u64, VestingSchedule>)
        ensures
            table@ == old(self).schedules(),
            forall|k: u64| #[trigger] table@.contains_key(k) ==> VestingSource::spec_from_key(k) is Some,
            final(self).schedules() == Map::<u64, VestingSchedule>::empty(),
            final(self).spec_amount() == old(self).spec_amount(),
            final(self).spec_split_staking_status() == old(self).spec_split_staking_status(),
            final(self).spec_bloat_bond() == old(self).spec_bloat_bond(),
    {
        proof {
            use_type_invariant(&*self);
        }
        let mut table: BTreeMap<u64, VestingSchedule> = BTreeMap::new();
        std::mem::swap(&mut self.vesting_schedules, &mut table);
        table
    }

    /// Puts a table in the place of the account's own.
    fn put_schedules(&mut self, table: BTreeMap<u64, VestingSchedule>)
        requires
            forall|k: u64| #[trigger] table@.contains_key(k) ==> VestingSource::spec_from_key(k) is Some,
        ensures
            final(self).schedules() == table@,
            final(self).spec_amount() == old(self).spec_amount(),
            final(self).spec_split_staking_status() == old(self).spec_split_staking_status(),
            final(self).spec_bloat_bond() == old(self).spec_bloat_bond(),
    {
        let mut table = table;
        std::mem::swap(&mut self.vesting_schedules, &mut table);
    }

    /// Files a grant under `source`: merged into the schedule that the source
    /// has, or as a new schedule after the eviction of `cleanup_candidate`.
    /// Either way the account's amount grows by the grant.
    pub fn add_or_update_vesting_schedule(
        &mut self,
        source: VestingSource,
        new_schedule: VestingSchedule,
        cleanup_candidate: Option<VestingSource>,
    )
        ensures
            final(self).schedules() == added_or_updated(
                old(self).schedules(),
                source,
                new_schedule,
                cleanup_candidate,
            ),
            final(self).spec_amount() == saturating_balance_add(
                old(self).spec_amount(),
                new_schedule.spec_total_amount(),
            ),
            final(self).spec_split_staking_status() == old(self).spec_split_staking_status(),
            final(self).spec_bloat_bond() == old(self).spec_bloat_bond(),
            forall|b: BlockNumber|
                old(self).spec_amount() >= old(self).spec_unvested(b) ==> final(self).spec_amount()
                    >= #[trigger] final(self).spec_unvested(b),
    {
        let key = source.key();
        let mut table = self.take_schedules();
        let existing_schedule = match table.get(&key) {
            Some(vs) => Some(*vs),
            None => None,
        };
        match existing_schedule {
            Some(vs) => {
                // Update existing schedule - increase amounts
                let updated = VestingSchedule {
                    linear_vesting_start_block: vs.linear_vesting_start_block,
                    linear_vesting_duration: vs.linear_vesting_duration,
                    cliff_amount: vs.cliff_amount.saturating_add(new_schedule.cliff_amount),
                    post_cliff_total_amount: vs.post_cliff_total_amount.saturating_add(
                        new_schedule.post_cliff_total_amount,
                    ),
                };
                table.insert(key, updated);
            },
            None => {
                // Perform cleanup if needed
                if let Some(evicted) = cleanup_candidate {
                    let evicted_key = evicted.key();
                    table.remove(&evicted_key);
                }
                // Insert new vesting schedule
                table.insert(key, new_schedule);
            },
        }
        self.put_schedules(table);
        self.increase_amount_by(new_schedule.total_amount());
        proof {
            assert forall|b: BlockNumber|
                old(self).spec_amount() >= old(self).spec_unvested(b) implies self.spec_amount()
                >= #[trigger] self.spec_unvested(b) by {
                lemma_grant_keeps_unvested_covered(
                    old(self).schedules(),
                    old(self).spec_amount(),
                    source,
                    new_schedule,
                    cleanup_candidate,
                    b,
                );
            }
        }
    }

    /// Locks `amount` of the account's tokens for the split `split_id`, in
    /// place of any earlier stake.
    pub fn stake(&mut self, split_id: u32, amount: Balance)
        ensures
            final(self).spec_split_staking_status() == Some(StakingStatus { split_id, amount }),
            final(self).schedules() == old(self).schedules(),
            final(self).spec_amount() == old(self).spec_amount(),
            final(self).spec_bloat_bond() == old(self).spec_bloat_bond(),
    {
        proof {
            use_type_invariant(&*self);
        }
        self.split_staking_status = Some(StakingStatus { split_id, amount });
    }

    /// Releases the stake, if there is one.
    pub fn unstake(&mut self)
        ensures
            final(self).spec_split_staking_status() is None,
            final(self).schedules() == old(self).schedules(),
            final(self).spec_amount() == old(self).spec_amount(),
            final(self).spec_bloat_bond() == old(self).spec_bloat_bond(),
    {
        proof {
            use_type_invariant(&*self);
        }
        self.split_staking_status = None;
    }

    /// Increase account's total tokens amount by given amount
    pub fn increase_amount_by(&mut self, amount: Balance)
        ensures
            final(self).spec_amount() == saturating_balance_add(old(self).spec_amount(), amount),
            final(self).schedules() == old(self).schedules(),
            final(self).spec_split_staking_status() == old(self).spec_split_staking_status(),
            final(self).spec_bloat_bond() == old(self).spec_bloat_bond(),
    {
        proof {
            use_type_invariant(&*self);
        }
        self.amount = self.amount.saturating_add(amount);
    }

    /// Decrease account's total tokens amount by given amount
    pub fn decrease_amount_by(&mut self, amount: Balance)
        ensures
            final(self).spec_amount() == (if old(self).spec_amount() >= amount {
                old(self).spec_amount() - amount
            } else {
                0
            }),
            final(self).schedules() == old(self).schedules(),
            final(self).spec_split_staking_status() == old(self).spec_split_staking_status(),
            final(self).spec_bloat_bond() == old(self).spec_bloat_bond(),
    {
        proof {
            use_type_invariant(&*self);
        }
        self.amount = self.amount.saturating_sub(amount);
    }
}

/// The transferrable balance never exceeds what the account holds.
pub proof fn lemma_transferrable_bounded(account: AccountData, b: BlockNumber)
    ensures
        0 <= account.spec_transferrable(b) <= account.spec_amount(),
{
}

/// A merged schedule locks no more than the earlier grant did and the later
/// grant holds.
pub proof fn lemma_merged_locks(old: VestingSchedule, new: VestingSchedule, b: BlockNumber)
    ensures
        merged(old, new).spec_locks(b) <= old.spec_locks(b) + new.spec_total_amount(),
{
    let both = merged(old, new);
    lemma_locks_bounded(old, b);
    lemma_locks_bounded(both, b);
    if old.linear_vesting_start_block <= b < old.end_block() {
        let share = old.remaining_share(b);
        let accuracy = PERMILL_ACCURACY as nat;
        let before = old.post_cliff_total_amount as nat;
        let added = new.post_cliff_total_amount as nat;
        let after = both.post_cliff_total_amount as nat;
        assert(both.remaining_share(b) == share);
        crate::fixed_point::lemma_rational_approximation_bounded(
            (old.end_block() - b) as nat,
            old.linear_vesting_duration as nat,
            accuracy,
        );
        assert(mul_floor(share, accuracy, after) <= mul_floor(share, accuracy, before) + added)
            by (nonlinear_arith)
            requires
                after <= before + added,
                share <= accuracy,
                accuracy > 0,
        ;
    }
}

/// A grant keeps what is locked within what the account holds: where the
/// amount covered the unvested balance at block `b`, the amount after the
/// grant covers the unvested balance of the table after it.
pub proof fn lemma_grant_keeps_unvested_covered(
    schedules: Map<u64, VestingSchedule>,
    amount: Balance,
    source: VestingSource,
    new: VestingSchedule,
    cleanup: Option<VestingSource>,
    b: BlockNumber,
)
    requires
        schedules.dom().finite(),
        amount >= saturated(map_sum(locked_amounts(schedules, b))),
    ensures
        saturating_balance_add(amount, new.spec_total_amount()) >= saturated(
            map_sum(locked_amounts(added_or_updated(schedules, source, new, cleanup), b)),
        ),
{
    let key = source.spec_key();
    let weights = locked_amounts(schedules, b);
    let after = added_or_updated(schedules, source, new, cleanup);
    lemma_locks_bounded(new, b);
    assert(weights.dom() == schedules.dom());
    if schedules.contains_key(key) {
        let both = merged(schedules[key], new);
        lemma_merged_locks(schedules[key], new, b);
        assert(locked_amounts(after, b) =~= weights.insert(key, both.spec_locks(b) as nat));
        lemma_map_sum_insert(weights, key, both.spec_locks(b) as nat);
    } else {
        match cleanup {
            Some(evicted) => {
                let rest = weights.remove(evicted.spec_key());
                assert(locked_amounts(after, b) =~= rest.insert(key, new.spec_locks(b) as nat));
                lemma_map_sum_without(weights, evicted.spec_key());
                lemma_map_sum_insert(rest, key, new.spec_locks(b) as nat);
                lemma_map_sum_without(rest, key);
            },
            None => {
                assert(locked_amounts(after, b) =~= weights.insert(key, new.spec_locks(b) as nat));
                lemma_map_sum_insert(weights, key, new.spec_locks(b) as nat);
            },
        }
    }
}

/// A transfer within the transferrable balance keeps what is locked within
/// what the account holds.
pub proof fn lemma_transfer_keeps_locks_covered(account: AccountData, b: BlockNumber, amount: Balance)
    requires
        account.spec_amount() >= account.spec_unvested(b),
        account.spec_amount() >= account.spec_staked(b),
        amount <= account.spec_transferrable(b),
    ensures
        account.spec_amount() - amount >= account.spec_unvested(b),
        account.spec_amount() - amount >= account.spec_staked(b),
{
}

/// A key that is decoded into a source is the key of that source.
pub proof fn lemma_key_round_trip(key: u64)
    ensures
        VestingSource::spec_from_key(key) matches Some(source) ==> source.spec_key() == key,
{
}

/// A table within its capacity stays within it when a grant is filed with
/// the answer of the check that precedes it.
pub proof fn lemma_capacity_kept(
    schedules: Map<u64, VestingSchedule>,
    b: BlockNumber,
    source: VestingSource,
    new: VestingSchedule,
    max_schedules: usize,
)
    requires
        schedules.dom().finite(),
        schedules.len() <= max_schedules,
        add_or_update_check(schedules, b, source, max_schedules) is Ok,
    ensures
        added_or_updated(
            schedules,
            source,
            new,
            add_or_update_check(schedules, b, source, max_schedules)->Ok_0,
        ).len() <= max_schedules,
        added_or_updated(
            schedules,
            source,
            new,
            add_or_update_check(schedules, b, source, max_schedules)->Ok_0,
        ).contains_key(source.spec_key()),
{
    let key = source.spec_key();
    let full = schedules.len() == max_schedules;
    if !schedules.contains_key(key) && full {
        let k = choose|k: u64| is_first_finished(schedules, b, k);
        assert(is_first_finished(schedules, b, k));
        lemma_key_round_trip(k);
        assert(schedules.remove(k).len() == schedules.len() - 1);
    }
}

impl Clone for AccountData {
    fn clone(&self) -> (r: Self)
        ensures
            r.schedules() == self.schedules(),
            r.spec_amount() == self.spec_amount(),
            r.spec_split_staking_status() == self.spec_split_staking_status(),
            r.spec_bloat_bond() == self.spec_bloat_bond(),
    {
        proof {
            use_type_invariant(self);
        }
        AccountData {
            vesting_schedules: self.vesting_schedules.clone(),
            amount: self.amount,
            split_staking_status: self.split_staking_status,
            bloat_bond: self.bloat_bond,
        }
    }
}

impl Default for AccountData {
    fn default() -> (r: Self)
        ensures
            r.schedules() == Map::<u64, VestingSchedule>::empty(),
            r.spec_amount() == 0,
            r.spec_split_staking_status() is None,
            r.spec_bloat_bond() == 0,
    {
        AccountData::new_with_amount_and_bond(0, 0)
    }
}

} // verus!
