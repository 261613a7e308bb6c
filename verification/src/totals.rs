//! Sums over finite maps from keys to amounts.
//!
//! A ledger records amounts under keys; a key without an entry stands for the
//! amount zero. This module says what the sum of all recorded amounts is and
//! how it moves when one entry is written.

use vstd::prelude::*;

verus! {

/// The amount recorded under `k`, zero where nothing is recorded.
pub open spec fn amount_at<K>(m: Map<K, u128>, k: K) -> u128 {
    if m.dom().contains(k) {
        m[k]
    } else {
        0
    }
}

/// The sum of the amounts that `m` records under the keys in `keys`.
pub open spec fn sum_over<K>(m: Map<K, u128>, keys: Set<K>) -> nat
    decreases keys.len(),
    when keys.finite()
{
    if keys.len() == 0 {
        0
    } else {
        let k = keys.choose();
        m[k] as nat + sum_over(m, keys.remove(k))
    }
}

/// The sum of all amounts recorded in `m`.
pub open spec fn total<K>(m: Map<K, u128>) -> nat {
    sum_over(m, m.dom())
}

/// Two maps that agree on `keys` have the same sum over `keys`.
pub proof fn lemma_sum_over_agree<K>(m1: Map<K, u128>, m2: Map<K, u128>, keys: Set<K>)
    requires
        keys.finite(),
        forall|k: K| keys.contains(k) ==> m1[k] == m2[k],
    ensures
        sum_over(m1, keys) == sum_over(m2, keys),
    decreases keys.len(),
{
    if keys.len() != 0 {
        let c = keys.choose();
        lemma_sum_over_agree(m1, m2, keys.remove(c));
    }
}

/// Any key of `keys` can be taken out of the sum first.
pub proof fn lemma_sum_over_split<K>(m: Map<K, u128>, keys: Set<K>, k: K)
    requires
        keys.finite(),
        keys.contains(k),
    ensures
        sum_over(m, keys) == m[k] as nat + sum_over(m, keys.remove(k)),
    decreases keys.len(),
{
    let c = keys.choose();
    if c != k {
        lemma_sum_over_split(m, keys.remove(c), k);
        lemma_sum_over_split(m, keys.remove(k), c);
        assert(keys.remove(c).remove(k) =~= keys.remove(k).remove(c));
    }
}

/// Nothing recorded sums to zero.
pub proof fn lemma_total_empty<K>()
    ensures
        total(Map::<K, u128>::empty()) == 0,
{
    assert(Map::<K, u128>::empty().dom() =~= Set::<K>::empty());
}

/// Writing `v` under `k` moves the sum by the difference between `v` and the
/// amount that stood under `k` before.
pub proof fn lemma_total_insert<K>(m: Map<K, u128>, k: K, v: u128)
    requires
        m.dom().finite(),
    ensures
        total(m.insert(k, v)) == total(m) - amount_at(m, k) + v,
{
    let after = m.insert(k, v);
    let rest = m.dom().remove(k);
    assert(after.dom() =~= m.dom().insert(k));
    assert(after.dom().remove(k) =~= rest);
    lemma_sum_over_split(after, after.dom(), k);
    lemma_sum_over_agree(after, m, rest);
    if m.dom().contains(k) {
        lemma_sum_over_split(m, m.dom(), k);
    } else {
        assert(rest =~= m.dom());
    }
}

/// No single amount exceeds the sum.
pub proof fn lemma_amount_within_total<K>(m: Map<K, u128>, k: K)
    requires
        m.dom().finite(),
    ensures
        amount_at(m, k) <= total(m),
{
    if m.dom().contains(k) {
        lemma_sum_over_split(m, m.dom(), k);
    }
}

/// No two amounts under different keys together exceed the sum.
pub proof fn lemma_two_amounts_within_total<K>(m: Map<K, u128>, a: K, b: K)
    requires
        m.dom().finite(),
        a != b,
    ensures
        amount_at(m, a) + amount_at(m, b) <= total(m),
{
    if m.dom().contains(a) {
        lemma_sum_over_split(m, m.dom(), a);
        if m.dom().contains(b) {
            lemma_sum_over_split(m, m.dom().remove(a), b);
        }
    } else {
        lemma_amount_within_total(m, b);
    }
}

} // verus!
