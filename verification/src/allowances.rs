//! The allowance store: how much each spender may still move out of each
//! owner's balance.

use vstd::prelude::*;
use crate::account::{AccountId, Balance};
use crate::sum::value_or_zero;
use crate::table::{Key, Table};

verus! {

/// An owner together with a spender whom the owner may have authorised. The
/// pair is ordered: swapping the two gives another pair.
#[derive(Clone, Copy, Debug)]
pub struct Delegation {
    pub owner: AccountId,
    pub spender: AccountId,
}

impl Key for Delegation {
    fn same(&self, other: &Delegation) -> (same: bool) {
        self.owner == other.owner && self.spender == other.spender
    }
}

/// The allowance of each ordered pair of an owner and a spender.
pub struct AllowanceStore {
    grants: Table<Delegation>,
}

impl View for AllowanceStore {
    type V = Map<Delegation, nat>;

    /// The pairs whose allowance was ever written, each with its allowance.
    closed spec fn view(&self) -> Map<Delegation, nat> {
        self.grants@
    }
}

impl AllowanceStore {
    /// The store is well formed.
    pub closed spec fn wf(&self) -> bool {
        self.grants.wf()
    }

    /// A well-formed store holds finitely many pairs, and each allowance fits
    /// the width of a balance.
    pub proof fn lemma_view_bounded(&self)
        ensures
            self@.dom().finite(),
            forall|d: Delegation| #[trigger] self@.dom().contains(d) ==> self@[d] <= Balance::MAX,
    {
        self.grants.lemma_view_bounded();
    }

    /// A store in which no allowance was written.
    pub fn new() -> (store: AllowanceStore)
        ensures
            store.wf(),
            store@ == Map::<Delegation, nat>::empty(),
    {
        AllowanceStore { grants: Table::new() }
    }

    /// What `spender` may still move out of the balance of `owner`, which is
    /// zero if no allowance was ever written for the pair.
    pub fn allowance_of(&self, owner: &AccountId, spender: &AccountId) -> (allowance: Balance)
        requires
            self.wf(),
        ensures
            allowance == value_or_zero(self@, (Delegation { owner: *owner, spender: *spender })),
    {
        self.grants.get(&Delegation { owner: *owner, spender: *spender })
    }

    /// Overwrites the allowance of `spender` on the balance of `owner` with
    /// `value`. The new value replaces the old one; it is not added to it.
    pub(crate) fn set_allowance(&mut self, owner: AccountId, spender: AccountId, value: Balance)
        requires
            old(self).wf(),
        ensures
            final(self).wf(),
            final(self)@ == old(self)@.insert((Delegation { owner, spender }), value as nat),
    {
        self.grants.set(Delegation { owner, spender }, value);
    }
}

} // verus!
