//! The balance store: the total supply and the balance of each account.

use vstd::prelude::*;
use crate::account::{AccountId, Balance};
use crate::sum::value_or_zero;
use crate::table::Table;

verus! {

/// The total supply together with the balance of each account.
///
/// The store only holds what it is told: it authorises nothing and does not
/// check that the balances add up to the supply.
pub struct BalanceStore {
    total_supply: Balance,
    accounts: Table<AccountId>,
}

impl View for BalanceStore {
    type V = Map<AccountId, nat>;

    /// The accounts whose balance was ever written, each with its balance.
    closed spec fn view(&self) -> Map<AccountId, nat> {
        self.accounts@
    }
}

impl BalanceStore {
    /// The total supply that the store was created with.
    pub closed spec fn supply(&self) -> nat {
        self.total_supply as nat
    }

    /// The store is well formed.
    pub closed spec fn wf(&self) -> bool {
        self.accounts.wf()
    }

    /// The supply fits the width of a balance, the store holds finitely many
    /// accounts, and each balance fits the width of a balance.
    pub proof fn lemma_view_bounded(&self)
        ensures
            self.supply() <= Balance::MAX,
            self@.dom().finite(),
            forall|a: AccountId| #[trigger] self@.dom().contains(a) ==> self@[a] <= Balance::MAX,
    {
        self.accounts.lemma_view_bounded();
    }

    /// A store with the given total supply in which no balance was written.
    pub fn new(total_supply: Balance) -> (store: BalanceStore)
        ensures
            store.wf(),
            store.supply() == total_supply,
            store@ == Map::<AccountId, nat>::empty(),
    {
        BalanceStore { total_supply, accounts: Table::new() }
    }

    /// The total supply.
    pub fn total_supply(&self) -> (supply: Balance)
        ensures
            supply == self.supply(),
    {
        self.total_supply
    }

    /// The balance of `account`, which is zero if none was ever written.
    pub fn balance_of(&self, account: &AccountId) -> (balance: Balance)
        requires
            self.wf(),
        ensures
            balance == value_or_zero(self@, *account),
    {
        self.accounts.get(account)
    }

    /// Overwrites the balance of `account` with `value`. The supply and the
    /// other balances stay as they are.
    pub(crate) fn set_balance(&mut self, account: AccountId, value: Balance)
        requires
            old(self).wf(),
        ensures
            final(self).wf(),
            final(self).supply() == old(self).supply(),
            final(self)@ == old(self)@.insert(account, value as nat),
    {
        self.accounts.set(account, value);
    }
}

} // verus!
