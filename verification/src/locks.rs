//! Balance locks that may or may not stand beside one another on one
//! account.

use vstd::prelude::*;

verus! {

/// The name of a lock on an account's balance.
pub type LockIdentifier = [u8; 8];

/// Whether `lock` is one of `locks`.
pub open spec fn contains_lock(locks: Seq<LockIdentifier>, lock: LockIdentifier) -> bool {
    exists|i: int| 0 <= i < locks.len() && (#[trigger] locks[i])@ == lock@
}

/// Whether one of `locks` is rivalrous, that is, not among the
/// `non_rivalrous` ones.
pub open spec fn contains_rivalrous_lock(
    locks: Seq<LockIdentifier>,
    non_rivalrous: Seq<LockIdentifier>,
) -> bool {
    exists|i: int| 0 <= i < locks.len() && !contains_lock(non_rivalrous, #[trigger] locks[i])
}

/// A new lock is in conflict with the locks that an account has where it is
/// rivalrous and one of them is rivalrous too.
pub open spec fn locks_conflict(
    new_lock: LockIdentifier,
    existing_locks: Seq<LockIdentifier>,
    non_rivalrous: Seq<LockIdentifier>,
) -> bool {
    &&& existing_locks.len() > 0
    &&& !contains_lock(non_rivalrous, new_lock)
    &&& contains_rivalrous_lock(existing_locks, non_rivalrous)
}

/// Whether two lock names are the same.
pub fn same_lock(a: &LockIdentifier, b: &LockIdentifier) -> (r: bool)
    ensures
        r == (a@ == b@),
{
    let mut i: usize = 0;
    while i < 8
        invariant
            i <= 8,
            forall|k: int| 0 <= k < i ==> a@[k] == b@[k],
        decreases 8 - i,
    {
        if a[i] != b[i] {
            return false;
        }
        i += 1;
    }
    assert(a@ =~= b@);
    true
}

/// Whether `lock` is one of `locks`.
pub fn is_among(locks: &[LockIdentifier], lock: &LockIdentifier) -> (r: bool)
    ensures
        r == contains_lock(locks@, *lock),
{
    let mut i: usize = 0;
    while i < locks.len()
        invariant
            i <= locks.len(),
            forall|k: int| 0 <= k < i ==> (#[trigger] locks@[k])@ != lock@,
        decreases locks.len() - i,
    {
        if same_lock(&locks[i], lock) {
            return true;
        }
        i += 1;
    }
    false
}

/// Whether `new_lock` is in conflict with `existing_locks`, where the locks
/// named in `non_rivalrous_locks` stand beside any other.
pub fn are_locks_conflicting(
    new_lock: &LockIdentifier,
    existing_locks: &[LockIdentifier],
    non_rivalrous_locks: &[LockIdentifier],
) -> (r: bool)
    ensures
        r == locks_conflict(*new_lock, existing_locks@, non_rivalrous_locks@),
{
    let other_locks_present = existing_locks.len() > 0;
    let new_lock_is_rivalrous = !is_among(non_rivalrous_locks, new_lock);
    let mut existing_locks_contain_rivalrous_lock = false;
    let mut i: usize = 0;
    while i < existing_locks.len()
        invariant
            i <= existing_locks.len(),
            existing_locks_contain_rivalrous_lock == contains_rivalrous_lock(
                existing_locks@.take(i as int),
                non_rivalrous_locks@,
            ),
        decreases existing_locks.len() - i,
    {
        let rivalrous = !is_among(non_rivalrous_locks, &existing_locks[i]);
        proof {
            let before = existing_locks@.take(i as int);
            let after = existing_locks@.take(i + 1);
            if contains_rivalrous_lock(before, non_rivalrous_locks@) {
                let k = choose|k: int|
                    0 <= k < before.len() && !contains_lock(
                        non_rivalrous_locks@,
                        #[trigger] before[k],
                    );
                assert(after[k] == before[k]);
            }
            if rivalrous {
                assert(after[i as int] == existing_locks@[i as int]);
            }
            if contains_rivalrous_lock(after, non_rivalrous_locks@) {
                let k = choose|k: int|
                    0 <= k < after.len() && !contains_lock(
                        non_rivalrous_locks@,
                        #[trigger] after[k],
                    );
                if k < i {
                    assert(before[k] == after[k]);
                } else {
                    assert(after[k] == existing_locks@[i as int]);
                }
            }
        }
        if rivalrous {
            existing_locks_contain_rivalrous_lock = true;
        }
        i += 1;
    }
    assert(existing_locks@.take(i as int) == existing_locks@);
    other_locks_present && new_lock_is_rivalrous && existing_locks_contain_rivalrous_lock
}

} // verus!
