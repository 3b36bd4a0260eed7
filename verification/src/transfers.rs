//! Transfers to several accounts at once: the payload, its total, and its
//! validation against the source account and the accounts that exist.

use vstd::prelude::*;
use std::collections::btree_map::Iter;
use std::collections::{BTreeMap, BTreeSet};
use vstd::std_specs::btree::{key_obeys_cmp_spec, spec_btree_map_iter};
use vstd::std_specs::iter::IteratorSpec;
use crate::account::AccountData;
use crate::error::Error;
use crate::sums::{keys_of, keys_sum, map_sum, saturated};
use crate::sums::{lemma_entries_cover, lemma_keys_sum_all, lemma_keys_sum_step};
use crate::{Balance, BlockNumber, JoyBalance};

verus! {

/// Information about a payment
#[derive(Clone, Debug, PartialEq, Eq)]
pub struct Payment<Balance> {
    /// Ignored by runtime
    pub remark: Vec<u8>,
    /// Amount
    pub amount: Balance,
}

/// Wrapper around BTreeMap<AccountId, Payment<Balance>>
#[derive(Clone, Debug, PartialEq, Eq)]
pub struct Transfers<AccountId, Balance>(pub BTreeMap<AccountId, Payment<Balance>>);

/// Utility wrapper around existing/non existing accounts to be used with transfer etc..
#[derive(Clone, Copy, Debug, PartialEq, Eq, PartialOrd, Ord)]
pub enum Validated<AccountId: Ord + Eq + Clone> {
    /// Existing account
    Existing(AccountId),
    /// Non Existing account
    NonExisting(AccountId),
}

impl<AccountId: Ord + Eq + Clone> Validated<AccountId> {
    /// The destination `account`, marked by whether an account record exists
    /// for it.
    pub open spec fn spec_classify(account: AccountId, exists: bool) -> Self {
        if exists {
            Validated::Existing(account)
        } else {
            Validated::NonExisting(account)
        }
    }

    #[verifier::when_used_as_spec(spec_classify)]
    pub fn classify(account: AccountId, exists: bool) -> (r: Self)
        ensures
            r == Self::spec_classify(account, exists),
    {
        if exists {
            Validated::Existing(account)
        } else {
            Validated::NonExisting(account)
        }
    }

    /// The account, whichever way it is marked.
    pub fn account(&self) -> (r: &AccountId)
        ensures
            *self == Validated::Existing(*r) || *self == Validated::NonExisting(*r),
    {
        match self {
            Validated::Existing(account) => account,
            Validated::NonExisting(account) => account,
        }
    }
}

/// The amount of each payment of a table.
pub open spec fn payment_amounts<AccountId>(payments: Map<AccountId, Payment<Balance>>) -> Map<
    AccountId,
    nat,
> {
    payments.map_values(|p: Payment<Balance>| p.amount as nat)
}

/// The destinations of a walk over the payments, each marked by whether it
/// is among the existing accounts.
pub open spec fn classified<AccountId: Ord + Eq + Clone>(
    entries: Seq<(&AccountId, &Payment<Balance>)>,
    existing: Set<AccountId>,
) -> Seq<Validated<AccountId>> {
    Seq::new(
        entries.len(),
        |i: int| Validated::spec_classify(*entries[i].0, existing.contains(*entries[i].0)),
    )
}

/// The number of destinations for which no account exists yet.
pub open spec fn non_existing_count<AccountId: Ord + Eq + Clone>(
    destinations: Seq<Validated<AccountId>>,
) -> nat
    decreases destinations.len(),
{
    if destinations.len() == 0 {
        0
    } else {
        non_existing_count(destinations.drop_last()) + if destinations.last() is NonExisting {
            1nat
        } else {
            0nat
        }
    }
}

impl<AccountId, Balance> Transfers<AccountId, Balance> {
    /// The payments, each under its destination.
    pub open spec fn payments(&self) -> Map<AccountId, Payment<Balance>> {
        self.0@
    }

    pub fn len(&self) -> (r: usize)
        ensures
            key_obeys_cmp_spec::<AccountId>() ==> r == self.payments().len(),
    {
        self.0.len()
    }

    /// The payments in the order of their destinations.
    pub fn iter(&self) -> (r: Iter<'_, AccountId, Payment<Balance>>)
        ensures
            key_obeys_cmp_spec::<AccountId>() ==> r == spec_btree_map_iter(&self.0)
                && r.remaining().no_duplicates(),
    {
        self.0.iter()
    }
}

impl<AccountId> Transfers<AccountId, Balance> {
    /// The sum of the payments, capped at the largest balance.
    pub open spec fn spec_total_amount(&self) -> Balance {
        saturated(map_sum(payment_amounts(self.payments())))
    }

    #[verifier::when_used_as_spec(spec_total_amount)]
    pub fn total_amount(&self) -> (r: Balance)
        requires
            key_obeys_cmp_spec::<AccountId>(),
        ensures
            r == self.spec_total_amount(),
    {
        let mut total: Balance = 0;
        let ghost weights = payment_amounts(self.0@);
        let ghost entries = spec_btree_map_iter(&self.0).remaining();
        let ghost mut n: int = 0;
        for entry in it: self.0.iter()
            invariant
                entries.no_duplicates(),
                it.seq() == entries,
                entries == spec_btree_map_iter(&self.0).remaining(),
                weights == payment_amounts(self.0@),
                n == it.index(),
                total == saturated(keys_sum(weights, keys_of(entries).take(n))),
        {
            let (_account, payment) = entry;
            proof {
                lemma_keys_sum_step(weights, keys_of(entries), n);
                assert(self.0@.contains_key(*entries[n].0));
                n = n + 1;
            }
            total = total.saturating_add(payment.amount);
        }
        proof {
            lemma_entries_cover(self.0@, entries);
            assert(keys_of(entries).take(n) == keys_of(entries));
            assert(weights.dom() == self.0@.dom());
            lemma_keys_sum_all(weights, keys_of(entries));
        }
        total
    }
}

impl<AccountId: Ord + Eq + Copy> Transfers<AccountId, Balance> {
    /// The payments by value, in the order of their destinations.
    pub fn into_iter(self) -> (r: Vec<(AccountId, Payment<Balance>)>)
        requires
            key_obeys_cmp_spec::<AccountId>(),
        ensures
            r@.len() == self.payments().len(),
            forall|i: int|
                0 <= i < r@.len() ==> {
                    &&& self.payments().contains_key((#[trigger] r@[i]).0)
                    &&& r@[i].0 == *spec_btree_map_iter(&self.0).remaining()[i].0
                    &&& r@[i].1.amount == self.payments()[r@[i].0].amount
                    &&& r@[i].1.remark@ == self.payments()[r@[i].0].remark@
                },
            forall|i: int, j: int|
                0 <= i < j < r@.len() ==> (#[trigger] r@[i]).0 != (#[trigger] r@[j]).0,
            forall|account: AccountId|
                self.payments().contains_key(account) ==> exists|i: int|
                    0 <= i < r@.len() && (#[trigger] r@[i]).0 == account,
    {
        let mut out: Vec<(AccountId, Payment<Balance>)> = Vec::new();
        let ghost entries = spec_btree_map_iter(&self.0).remaining();
        let ghost mut n: int = 0;
        for entry in it: self.0.iter()
            invariant
                entries.no_duplicates(),
                it.seq() == entries,
                entries == spec_btree_map_iter(&self.0).remaining(),
                n == it.index(),
                out@.len() == n,
                forall|i: int|
                    0 <= i < n ==> {
                        &&& self.0@.contains_key((#[trigger] out@[i]).0)
                        &&& out@[i].0 == *entries[i].0
                        &&& out@[i].1.amount == self.0@[out@[i].0].amount
                        &&& out@[i].1.remark@ == self.0@[out@[i].0].remark@
                    },
        {
            let (account, payment) = entry;
            proof {
                assert(self.0@.contains_key(*entries[n].0));
            }
            let remark = payment.remark.clone();
            assert(remark@ =~= payment.remark@);
            out.push((*account, Payment { remark, amount: payment.amount }));
            proof {
                n = n + 1;
            }
        }
        proof {
            lemma_entries_cover(self.0@, entries);
            let keys = keys_of(entries);
            assert forall|i: int, j: int| 0 <= i < j < out@.len() implies (#[trigger] out@[i]).0 != (
            #[trigger] out@[j]).0 by {
                assert(keys[i] == out@[i].0);
                assert(keys[j] == out@[j].0);
            }
            assert forall|account: AccountId| self.0@.contains_key(account) implies exists|i: int|
                0 <= i < out@.len() && (#[trigger] out@[i]).0 == account by {
                assert(keys.to_set().contains(account));
                let i = choose|i: int| 0 <= i < keys.len() && keys[i] == account;
                assert(out@[i].0 == account);
            }
        }
        out
    }

    /// Validates the transfers against their source and the accounts that
    /// exist, before anything is written. Fails with
    /// `InsufficientTransferrableBalance` where the total exceeds what
    /// `source` can transfer at block `now`; else marks each destination, in
    /// the order of the payments, by whether an account exists for it.
    pub fn validate(&self, source: &AccountData, existing: &BTreeSet<AccountId>, now: BlockNumber) -> (r:
        Result<Vec<Validated<AccountId>>, Error>)
        requires
            vstd::laws_cmp::obeys_cmp::<AccountId>(),
        ensures
            match r {
                Ok(destinations) => {
                    &&& self.spec_total_amount() <= source.spec_transferrable(now)
                    &&& destinations@ == classified(
                        spec_btree_map_iter(&self.0).remaining(),
                        existing@,
                    )
                    &&& destinations@.len() == self.payments().len()
                },
                Err(error) => {
                    &&& error == Error::InsufficientTransferrableBalance
                    &&& self.spec_total_amount() > source.spec_transferrable(now)
                },
            },
    {
        if source.transferrable(now) < self.total_amount() {
            return Err(Error::InsufficientTransferrableBalance);
        }
        let mut destinations: Vec<Validated<AccountId>> = Vec::new();
        let ghost entries = spec_btree_map_iter(&self.0).remaining();
        let ghost mut n: int = 0;
        for entry in it: self.0.iter()
            invariant
                vstd::laws_cmp::obeys_cmp::<AccountId>(),
                it.seq() == entries,
                entries == spec_btree_map_iter(&self.0).remaining(),
                n == it.index(),
                destinations@ == classified(entries, existing@).take(n),
        {
            let (account, _payment) = entry;
            let exists = existing.contains(account);
            destinations.push(Validated::classify(*account, exists));
            proof {
                n = n + 1;
                assert(destinations@ =~= classified(entries, existing@).take(n));
            }
        }
        assert(destinations@ =~= classified(entries, existing@));
        Ok(destinations)
    }
}

impl<AccountId, Balance> From<Transfers<AccountId, Balance>> for BTreeMap<AccountId, Payment<Balance>> {
    fn from(v: Transfers<AccountId, Balance>) -> (r: Self) {
        v.0
    }
}

impl<AccountId, Balance> vstd::std_specs::convert::FromSpecImpl<Transfers<AccountId, Balance>> for BTreeMap<AccountId, Payment<Balance>> {
    open spec fn obeys_from_spec() -> bool {
        true
    }

    open spec fn from_spec(v: Transfers<AccountId, Balance>) -> Self {
        v.0
    }
}

/// The bond that the new accounts among `destinations` cost together, at
/// `bloat_bond` each, capped at the largest balance.
pub fn bloat_bond_required<AccountId: Ord + Eq + Clone>(
    destinations: &Vec<Validated<AccountId>>,
    bloat_bond: JoyBalance,
) -> (r: JoyBalance)
    ensures
        r == saturated(non_existing_count(destinations@) * bloat_bond as nat),
{
    let mut total: JoyBalance = 0;
    let mut i: usize = 0;
    assert(0 * bloat_bond as nat == 0) by (nonlinear_arith);
    while i < destinations.len()
        invariant
            i <= destinations.len(),
            total == saturated(non_existing_count(destinations@.take(i as int)) * bloat_bond as nat),
        decreases destinations.len() - i,
    {
        proof {
            let next = destinations@.take(i + 1);
            assert(next.drop_last() == destinations@.take(i as int));
            assert(next.last() == destinations@[i as int]);
            let count = non_existing_count(destinations@.take(i as int));
            assert((count + 1) * bloat_bond as nat == count * bloat_bond as nat + bloat_bond as nat)
                by (nonlinear_arith);
        }
        match &destinations[i] {
            Validated::NonExisting(_) => {
                total = total.saturating_add(bloat_bond);
            },
            Validated::Existing(_) => {},
        }
        i += 1;
    }
    assert(destinations@.take(i as int) == destinations@);
    total
}

} // verus!
