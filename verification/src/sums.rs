//! Sums over finite maps, and what walking a `BTreeMap` in key order gives.

use vstd::prelude::*;

verus! {

/// The sum of the values of a finite map.
pub open spec fn map_sum<K>(m: Map<K, nat>) -> nat
    decreases m.dom().len(),
    when m.dom().finite()
{
    if m.dom().len() == 0 {
        0
    } else {
        let k = m.dom().choose();
        m[k] + map_sum(m.remove(k))
    }
}

/// The sum of the values that a sequence of keys selects.
pub open spec fn keys_sum<K>(m: Map<K, nat>, keys: Seq<K>) -> nat
    decreases keys.len(),
{
    if keys.len() == 0 {
        0
    } else {
        keys_sum(m, keys.drop_last()) + m[keys.last()]
    }
}

/// `n`, capped at the largest `u128`.
pub open spec fn saturated(n: nat) -> u128 {
    if n <= u128::MAX {
        n as u128
    } else {
        u128::MAX
    }
}

/// The keys of a sequence of borrowed entries, in the same order.
pub open spec fn keys_of<K, V>(entries: Seq<(&K, &V)>) -> Seq<K> {
    Seq::new(entries.len(), |i: int| *entries[i].0)
}

/// Any key of the map can be taken out of the sum first.
pub proof fn lemma_map_sum_remove<K>(m: Map<K, nat>, k: K)
    requires
        m.dom().finite(),
        m.contains_key(k),
    ensures
        map_sum(m) == m[k] + map_sum(m.remove(k)),
    decreases m.dom().len(),
{
    let c = m.dom().choose();
    if c != k {
        lemma_map_sum_remove(m.remove(c), k);
        lemma_map_sum_remove(m.remove(k), c);
        assert(m.remove(c).remove(k) == m.remove(k).remove(c));
    }
}

/// Writing a value under a key replaces that key's term in the sum.
pub proof fn lemma_map_sum_insert<K>(m: Map<K, nat>, k: K, v: nat)
    requires
        m.dom().finite(),
    ensures
        map_sum(m.insert(k, v)) == v + map_sum(m.remove(k)),
        m.contains_key(k) ==> map_sum(m.insert(k, v)) + m[k] == v + map_sum(m),
        !m.contains_key(k) ==> map_sum(m.insert(k, v)) == v + map_sum(m),
{
    lemma_map_sum_remove(m.insert(k, v), k);
    assert(m.insert(k, v).remove(k) == m.remove(k));
    if m.contains_key(k) {
        lemma_map_sum_remove(m, k);
    } else {
        assert(m.remove(k) == m);
    }
}

/// Without one of its keys a map sums to no more than with it.
pub proof fn lemma_map_sum_without<K>(m: Map<K, nat>, k: K)
    requires
        m.dom().finite(),
    ensures
        map_sum(m.remove(k)) <= map_sum(m),
{
    if m.contains_key(k) {
        lemma_map_sum_remove(m, k);
    } else {
        assert(m.remove(k) == m);
    }
}

/// The sum over a sequence of keys depends only on the values under them.
pub proof fn lemma_keys_sum_same<K>(a: Map<K, nat>, b: Map<K, nat>, keys: Seq<K>)
    requires
        forall|i: int| 0 <= i < keys.len() ==> a[#[trigger] keys[i]] == b[keys[i]],
    ensures
        keys_sum(a, keys) == keys_sum(b, keys),
    decreases keys.len(),
{
    if keys.len() > 0 {
        let rest = keys.drop_last();
        assert forall|i: int| 0 <= i < rest.len() implies a[#[trigger] rest[i]] == b[rest[i]] by {
            assert(rest[i] == keys[i]);
        }
        lemma_keys_sum_same(a, b, rest);
    }
}

/// A sequence that names every key of the map once sums to the map's sum.
pub proof fn lemma_keys_sum_all<K>(m: Map<K, nat>, keys: Seq<K>)
    requires
        m.dom().finite(),
        keys.no_duplicates(),
        keys.to_set() == m.dom(),
    ensures
        keys_sum(m, keys) == map_sum(m),
    decreases keys.len(),
{
    if keys.len() == 0 {
        assert(m.dom() =~= Set::<K>::empty());
        assert(m.dom().len() == 0);
    } else {
        let k = keys.last();
        let rest = keys.drop_last();
        assert(keys.contains(k));
        assert(m.contains_key(k));
        lemma_map_sum_remove(m, k);
        assert(rest.no_duplicates());
        assert(rest.to_set() =~= m.remove(k).dom()) by {
            assert forall|x: K| rest.to_set().contains(x) <==> m.remove(k).dom().contains(x) by {
                if rest.contains(x) {
                    let i = choose|i: int| 0 <= i < rest.len() && rest[i] == x;
                    assert(keys[i] == x);
                    assert(keys.contains(x));
                    assert(x != k);
                }
                if m.remove(k).dom().contains(x) {
                    assert(keys.to_set().contains(x));
                    let i = choose|i: int| 0 <= i < keys.len() && keys[i] == x;
                    assert(i < keys.len() - 1);
                    assert(rest[i] == x);
                }
            }
        }
        lemma_keys_sum_all(m.remove(k), rest);
        lemma_keys_sum_same(m, m.remove(k), rest);
    }
}

/// One more key adds its value to the sum over a prefix.
pub proof fn lemma_keys_sum_step<K>(m: Map<K, nat>, keys: Seq<K>, i: int)
    requires
        0 <= i < keys.len(),
    ensures
        keys_sum(m, keys.take(i + 1)) == keys_sum(m, keys.take(i)) + m[keys[i]],
{
    assert(keys.take(i + 1).drop_last() == keys.take(i));
    assert(keys.take(i + 1).last() == keys[i]);
}

/// The entries that a walk over a `BTreeMap` yields name every key once.
pub proof fn lemma_entries_cover<K, V>(m: Map<K, V>, entries: Seq<(&K, &V)>)
    requires
        m.dom().finite(),
        entries.no_duplicates(),
        forall|i: int|
            0 <= i < entries.len() ==> m.contains_key(*(#[trigger] entries[i]).0) && m[*entries[i].0]
                == *entries[i].1,
        forall|k: K| #[trigger] m.contains_key(k) ==> entries.contains((&k, &m[k])),
    ensures
        keys_of(entries).no_duplicates(),
        keys_of(entries).to_set() == m.dom(),
{
    let keys = keys_of(entries);
    assert forall|i: int, j: int| 0 <= i < keys.len() && 0 <= j < keys.len() && i != j implies keys[i]
        != keys[j] by {
        if keys[i] == keys[j] {
            assert(*entries[i].0 == *entries[j].0);
            assert(*entries[i].1 == *entries[j].1);
            assert(entries[i] == entries[j]);
        }
    }
    assert(keys.to_set() =~= m.dom()) by {
        assert forall|k: K| keys.to_set().contains(k) <==> m.dom().contains(k) by {
            if keys.contains(k) {
                let i = choose|i: int| 0 <= i < keys.len() && keys[i] == k;
                assert(m.contains_key(*entries[i].0));
            }
            if m.contains_key(k) {
                let e = (&k, &m[k]);
                assert(entries.contains(e));
                let i = choose|i: int| 0 <= i < entries.len() && entries[i] == e;
                assert(keys[i] == k);
            }
        }
    }
}

} // verus!
