//! A table from keys to amounts, where a key without an entry stands for zero.

use vstd::prelude::*;
use crate::account::AccountId;
use crate::totals::amount_at;

verus! {

/// A key that can be compared at run time; the comparison decides equality.
pub trait Key: Sized {
    /// Whether `self` and `other` are the same key.
    fn same_key(&self, other: &Self) -> (r: bool)
        ensures
            r == (*self == *other),
    ;
}

impl Key for AccountId {
    fn same_key(&self, other: &Self) -> (r: bool) {
        self.same(other)
    }
}

impl Key for (AccountId, AccountId) {
    fn same_key(&self, other: &Self) -> (r: bool) {
        self.0.same(&other.0) && self.1.same(&other.1)
    }
}

/// What a list of entries records: for each key, the amount of the first
/// entry that carries it.
pub open spec fn recorded<K>(entries: Seq<(K, u128)>) -> Map<K, u128>
    decreases entries.len(),
{
    if entries.len() == 0 {
        Map::empty()
    } else {
        let earlier = recorded(entries.drop_last());
        let last = entries.last();
        if earlier.dom().contains(last.0) {
            earlier
        } else {
            earlier.insert(last.0, last.1)
        }
    }
}

/// Whether no entry before position `i` carries the key `k`.
pub open spec fn absent_before<K>(entries: Seq<(K, u128)>, k: K, i: int) -> bool {
    forall|j: int| 0 <= j < i && j < entries.len() ==> (#[trigger] entries[j]).0 != k
}

/// A list of entries records finitely many keys.
pub proof fn lemma_recorded_finite<K>(entries: Seq<(K, u128)>)
    ensures
        recorded(entries).dom().finite(),
    decreases entries.len(),
{
    if entries.len() != 0 {
        lemma_recorded_finite(entries.drop_last());
    }
}

/// A key that no entry carries is not recorded.
pub proof fn lemma_recorded_absent<K>(entries: Seq<(K, u128)>, k: K)
    requires
        absent_before(entries, k, entries.len() as int),
    ensures
        !recorded(entries).dom().contains(k),
    decreases entries.len(),
{
    if entries.len() != 0 {
        let earlier = entries.drop_last();
        assert(forall|j: int| 0 <= j < earlier.len() ==> earlier[j] == entries[j]);
        lemma_recorded_absent(earlier, k);
        assert(entries[entries.len() - 1].0 != k);
    }
}

/// The first entry that carries a key holds the amount recorded for it.
pub proof fn lemma_recorded_first<K>(entries: Seq<(K, u128)>, k: K, i: int)
    requires
        0 <= i < entries.len(),
        entries[i].0 == k,
        absent_before(entries, k, i),
    ensures
        recorded(entries).dom().contains(k),
        recorded(entries)[k] == entries[i].1,
    decreases entries.len(),
{
    let earlier = entries.drop_last();
    assert(forall|j: int| 0 <= j < earlier.len() ==> earlier[j] == entries[j]);
    if i < entries.len() - 1 {
        lemma_recorded_first(earlier, k, i);
    } else {
        lemma_recorded_absent(earlier, k);
    }
}

/// Overwriting the first entry that carries a key records the new amount
/// for that key and leaves every other key as it was.
pub proof fn lemma_recorded_update<K>(entries: Seq<(K, u128)>, k: K, i: int, v: u128)
    requires
        0 <= i < entries.len(),
        entries[i].0 == k,
        absent_before(entries, k, i),
    ensures
        recorded(entries.update(i, (k, v))) == recorded(entries).insert(k, v),
    decreases entries.len(),
{
    let written = entries.update(i, (k, v));
    let earlier = entries.drop_last();
    assert(forall|j: int| 0 <= j < earlier.len() ==> earlier[j] == entries[j]);
    if i < entries.len() - 1 {
        assert(written.drop_last() =~= earlier.update(i, (k, v)));
        assert(written.last() == entries.last());
        lemma_recorded_update(earlier, k, i, v);
        lemma_recorded_first(earlier, k, i);
        assert(recorded(written) =~= recorded(entries).insert(k, v));
    } else {
        assert(written.drop_last() =~= earlier);
        lemma_recorded_absent(earlier, k);
        assert(recorded(written) =~= recorded(entries).insert(k, v));
    }
}

/// Appending an entry for a key that no entry carries records it.
pub proof fn lemma_recorded_push<K>(entries: Seq<(K, u128)>, k: K, v: u128)
    requires
        absent_before(entries, k, entries.len() as int),
    ensures
        recorded(entries.push((k, v))) == recorded(entries).insert(k, v),
{
    let grown = entries.push((k, v));
    assert(grown.drop_last() =~= entries);
    lemma_recorded_absent(entries, k);
}

/// A table from keys to amounts. Reading a key that was never written
/// gives zero.
pub struct Table<K> {
    entries: Vec<(K, u128)>,
}

impl<K: Key> View for Table<K> {
    type V = Map<K, u128>;

    /// The entries written so far, as a finite map.
    closed spec fn view(&self) -> Map<K, u128> {
        recorded(self.entries@)
    }
}

impl<K: Key> Table<K> {
    /// A table with no entry.
    pub fn new() -> (table: Self)
        ensures
            table@ == Map::<K, u128>::empty(),
    {
        Table { entries: Vec::new() }
    }

    /// Every table holds finitely many entries.
    pub proof fn lemma_finite(self)
        ensures
            self@.dom().finite(),
    {
        lemma_recorded_finite(self.entries@);
    }

    /// The position of the first entry for `key`, or the number of entries
    /// where there is none.
    fn position(&self, key: &K) -> (i: usize)
        ensures
            i <= self.entries@.len(),
            absent_before(self.entries@, *key, i as int),
            i < self.entries@.len() ==> self.entries@[i as int].0 == *key,
    {
        let mut i: usize = 0;
        while i < self.entries.len()
            invariant
                i <= self.entries@.len(),
                absent_before(self.entries@, *key, i as int),
            decreases self.entries@.len() - i,
        {
            if self.entries[i].0.same_key(key) {
                return i;
            }
            i += 1;
        }
        i
    }

    /// The amount under `key`, zero where there is no entry.
    pub fn get(&self, key: &K) -> (amount: u128)
        ensures
            amount == amount_at(self@, *key),
    {
        let i = self.position(key);
        if i < self.entries.len() {
            proof {
                lemma_recorded_first(self.entries@, *key, i as int);
            }
            self.entries[i].1
        } else {
            proof {
                lemma_recorded_absent(self.entries@, *key);
            }
            0
        }
    }

    /// Writes `amount` under `key`, replacing what stood there.
    pub fn insert(&mut self, key: K, amount: u128)
        ensures
            final(self)@ == old(self)@.insert(key, amount),
    {
        let i = self.position(&key);
        if i < self.entries.len() {
            proof {
                lemma_recorded_update(self.entries@, key, i as int, amount);
            }
            self.entries.set(i, (key, amount));
        } else {
            proof {
                lemma_recorded_push(self.entries@, key, amount);
            }
            self.entries.push((key, amount));
        }
    }
}

} // verus!
