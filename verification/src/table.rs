//! A sparse table from keys to amounts.
//!
//! The table keeps one slot per key that was ever written. A key that was
//! never written reads as zero, so a missing slot and a slot that holds zero
//! cannot be told apart by reading.

use vstd::prelude::*;
use crate::account::{AccountId, Balance};
use crate::sum::value_or_zero;

verus! {

/// A key of a table: a value that can be compared for equality at run time.
pub trait Key: Sized {
    /// Whether `self` and `other` are the same key.
    fn same(&self, other: &Self) -> (same: bool)
        ensures
            same == (*self == *other),
    ;
}

impl Key for AccountId {
    fn same(&self, other: &AccountId) -> (same: bool) {
        *self == *other
    }
}

/// One written key with the amount last written under it.
struct Slot<K> {
    key: K,
    amount: Balance,
}

/// The map that a sequence of slots stands for: each slot's key leads to its
/// amount, a later slot overriding an earlier one with the same key.
spec fn slots_map<K>(slots: Seq<Slot<K>>) -> Map<K, nat>
    decreases slots.len(),
{
    if slots.len() == 0 {
        Map::empty()
    } else {
        slots_map(slots.drop_last()).insert(slots.last().key, slots.last().amount as nat)
    }
}

/// No key occurs in two slots.
spec fn distinct_keys<K>(slots: Seq<Slot<K>>) -> bool {
    forall|i: int, j: int| 0 <= i < j < slots.len() ==> slots[i].key != slots[j].key
}

/// The domain of the map is finite and holds exactly the keys of the slots,
/// and every amount fits the width of a balance.
proof fn lemma_slots_map_domain<K>(slots: Seq<Slot<K>>)
    ensures
        slots_map(slots).dom().finite(),
        forall|k: K|
            slots_map(slots).dom().contains(k) <==> exists|i: int|
                0 <= i < slots.len() && #[trigger] slots[i].key == k,
        forall|k: K| #[trigger]
            slots_map(slots).dom().contains(k) ==> slots_map(slots)[k] <= Balance::MAX,
    decreases slots.len(),
{
    if slots.len() > 0 {
        let front = slots.drop_last();
        lemma_slots_map_domain(front);
        assert forall|k: K| slots_map(slots).dom().contains(k) implies exists|i: int|
            0 <= i < slots.len() && #[trigger] slots[i].key == k by {
            if k == slots.last().key {
                assert(slots[slots.len() - 1].key == k);
            } else {
                let i = choose|i: int| 0 <= i < front.len() && #[trigger] front[i].key == k;
                assert(slots[i].key == k);
            }
        }
        assert forall|k: K|
            (exists|i: int|
                0 <= i < slots.len() && #[trigger] slots[i].key
                    == k) implies slots_map(slots).dom().contains(k) by {
            let i = choose|i: int| 0 <= i < slots.len() && #[trigger] slots[i].key == k;
            if i < slots.len() - 1 {
                assert(front[i].key == k);
            }
        }
    }
}

/// Where no key occurs twice, the map gives each slot's key that slot's
/// amount.
proof fn lemma_slots_map_at<K>(slots: Seq<Slot<K>>, i: int)
    requires
        distinct_keys(slots),
        0 <= i < slots.len(),
    ensures
        slots_map(slots).dom().contains(slots[i].key),
        slots_map(slots)[slots[i].key] == slots[i].amount,
    decreases slots.len(),
{
    if i < slots.len() - 1 {
        let front = slots.drop_last();
        lemma_slots_map_at(front, i);
    }
}

/// Where no key occurs twice, writing a new amount into slot `i` writes it
/// into the map under that slot's key and changes nothing else.
proof fn lemma_slots_map_update<K>(slots: Seq<Slot<K>>, i: int, amount: Balance)
    requires
        distinct_keys(slots),
        0 <= i < slots.len(),
    ensures
        distinct_keys(slots.update(i, Slot { key: slots[i].key, amount })),
        slots_map(slots.update(i, Slot { key: slots[i].key, amount })) == slots_map(slots).insert(
            slots[i].key,
            amount as nat,
        ),
    decreases slots.len(),
{
    let written = slots.update(i, Slot { key: slots[i].key, amount });
    let front = slots.drop_last();
    if i < slots.len() - 1 {
        lemma_slots_map_update(front, i, amount);
        assert(written.drop_last() =~= front.update(i, Slot { key: slots[i].key, amount }));
        assert(slots_map(written) =~= slots_map(slots).insert(slots[i].key, amount as nat));
    } else {
        assert(written.drop_last() =~= front);
        assert(slots_map(written) =~= slots_map(slots).insert(slots[i].key, amount as nat));
    }
}

/// A sparse table from keys to amounts, in which a key that was never written
/// reads as zero.
pub struct Table<K> {
    slots: Vec<Slot<K>>,
}

impl<K: Key> View for Table<K> {
    type V = Map<K, nat>;

    /// The written keys, each with the amount last written under it.
    closed spec fn view(&self) -> Map<K, nat> {
        slots_map(self.slots@)
    }
}

impl<K: Key> Table<K> {
    /// The table is well formed: no key has two slots.
    pub closed spec fn wf(&self) -> bool {
        distinct_keys(self.slots@)
    }

    /// A well-formed table has finitely many written keys, and each amount
    /// fits the width of a balance.
    pub proof fn lemma_view_bounded(&self)
        ensures
            self@.dom().finite(),
            forall|k: K| #[trigger] self@.dom().contains(k) ==> self@[k] <= Balance::MAX,
    {
        lemma_slots_map_domain(self.slots@);
    }

    /// A table in which no key was written.
    pub fn new() -> (table: Table<K>)
        ensures
            table.wf(),
            table@ == Map::<K, nat>::empty(),
    {
        Table { slots: Vec::new() }
    }

    /// The position of the slot of `key`, if it has one.
    fn position(&self, key: &K) -> (found: Option<usize>)
        requires
            self.wf(),
        ensures
            match found {
                Some(i) => i < self.slots@.len() && self.slots@[i as int].key == *key,
                None => !self@.dom().contains(*key),
            },
    {
        let mut i: usize = 0;
        while i < self.slots.len()
            invariant
                i <= self.slots@.len(),
                forall|j: int| 0 <= j < i ==> self.slots@[j].key != *key,
            decreases self.slots@.len() - i,
        {
            if self.slots[i].key.same(key) {
                return Some(i);
            }
            i += 1;
        }
        proof {
            lemma_slots_map_domain(self.slots@);
        }
        None
    }

    /// The amount under `key`: what was last written there, or zero if
    /// nothing was.
    pub fn get(&self, key: &K) -> (amount: Balance)
        requires
            self.wf(),
        ensures
            amount == value_or_zero(self@, *key),
    {
        match self.position(key) {
            Some(i) => {
                proof {
                    lemma_slots_map_at(self.slots@, i as int);
                }
                self.slots[i].amount
            },
            None => 0,
        }
    }

    /// Writes `amount` under `key`, in place of whatever was there. No other
    /// key is affected.
    pub fn set(&mut self, key: K, amount: Balance)
        requires
            old(self).wf(),
        ensures
            final(self).wf(),
            final(self)@ == old(self)@.insert(key, amount as nat),
    {
        match self.position(&key) {
            Some(i) => {
                proof {
                    lemma_slots_map_update(self.slots@, i as int, amount);
                }
                self.slots.set(i, Slot { key, amount });
            },
            None => {
                proof {
                    lemma_slots_map_domain(self.slots@);
                    assert(self.slots@.push(Slot { key, amount }).drop_last() =~= self.slots@);
                }
                self.slots.push(Slot { key, amount });
            },
        }
    }
}

} // verus!
