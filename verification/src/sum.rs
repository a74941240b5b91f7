//! The sum of the values of a finite map, and how it moves when one entry
//! is written.

use vstd::prelude::*;

verus! {

/// The value that `m` gives to `k`, where a key outside the domain counts as
/// zero.
pub open spec fn value_or_zero<K>(m: Map<K, nat>, k: K) -> nat {
    if m.dom().contains(k) {
        m[k]
    } else {
        0
    }
}

/// The sum of all the values of `m`. It is meaningful for a map with a finite
/// domain.
pub open spec fn sum_of<K>(m: Map<K, nat>) -> nat
    decreases m.dom().len(),
    when m.dom().finite()
{
    if m.dom().is_empty() {
        0
    } else {
        let k = m.dom().choose();
        m[k] + sum_of(m.remove(k))
    }
}

/// The empty map sums to zero.
pub proof fn lemma_sum_empty<K>()
    ensures
        sum_of(Map::<K, nat>::empty()) == 0,
{
    assert(Map::<K, nat>::empty().dom() =~= Set::empty());
}

/// Any entry can be taken out of the sum first: the order in which the
/// entries are added up does not matter.
pub proof fn lemma_sum_remove<K>(m: Map<K, nat>, k: K)
    requires
        m.dom().finite(),
        m.dom().contains(k),
    ensures
        sum_of(m) == m[k] + sum_of(m.remove(k)),
    decreases m.dom().len(),
{
    let c = m.dom().choose();
    if c != k {
        lemma_sum_remove(m.remove(c), k);
        lemma_sum_remove(m.remove(k), c);
        assert(m.remove(c).remove(k) =~= m.remove(k).remove(c));
    }
}

/// Writing `v` under `k` takes the old value of `k` out of the sum and puts
/// `v` in.
pub proof fn lemma_sum_insert<K>(m: Map<K, nat>, k: K, v: nat)
    requires
        m.dom().finite(),
    ensures
        m.insert(k, v).dom().finite(),
        sum_of(m.insert(k, v)) + value_or_zero(m, k) == sum_of(m) + v,
{
    let n = m.insert(k, v);
    lemma_sum_remove(n, k);
    assert(n.remove(k) =~= m.remove(k));
    if m.dom().contains(k) {
        lemma_sum_remove(m, k);
    } else {
        assert(m.remove(k) =~= m);
    }
}

/// No entry is larger than the sum.
pub proof fn lemma_sum_bounds_entry<K>(m: Map<K, nat>, k: K)
    requires
        m.dom().finite(),
    ensures
        value_or_zero(m, k) <= sum_of(m),
{
    if m.dom().contains(k) {
        lemma_sum_remove(m, k);
    }
}

} // verus!
