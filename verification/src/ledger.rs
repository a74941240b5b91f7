//! The ledger: the one owner of the balance store, the allowance store and
//! the event emitter, and the only writer of all three.

use vstd::prelude::*;
use crate::account::{AccountId, Balance};
use crate::allowances::{AllowanceStore, Delegation};
use crate::balances::BalanceStore;
use crate::event::{Event, EventEmitter};
use crate::state::{Call, LedgerState};
use crate::sum::{lemma_sum_bounds_entry, lemma_sum_empty, lemma_sum_insert};

verus! {

/// A deployed ledger.
///
/// A ledger comes into being by [`Ledger::deploy`], which fixes the total
/// supply for good. From then on it answers queries and executes transfers
/// and approvals, one call at a time; each call either takes full effect or
/// leaves the ledger exactly as it was.
pub struct Ledger {
    balances: BalanceStore,
    allowances: AllowanceStore,
    emitter: EventEmitter,
}

impl View for Ledger {
    type V = LedgerState;

    /// What an observer can know of the ledger.
    closed spec fn view(&self) -> LedgerState {
        LedgerState {
            total_supply: self.balances.supply(),
            balances: self.balances@,
            allowances: self.allowances@,
            events: self.emitter@,
        }
    }
}

impl Ledger {
    /// The two stores are well formed.
    pub closed spec fn stores_wf(&self) -> bool {
        &&& self.balances.wf()
        &&& self.allowances.wf()
    }

    /// The ledger is well formed: its stores are, and its balances add up to
    /// its total supply.
    pub open spec fn wf(&self) -> bool {
        &&& self.stores_wf()
        &&& self@.conserved()
    }

    /// In a well-formed ledger every balance and every allowance fits the
    /// width of a balance, and no balance exceeds the total supply.
    pub proof fn lemma_bounded(&self)
        requires
            self.wf(),
        ensures
            self@.total_supply <= Balance::MAX,
            forall|a: AccountId| #[trigger] self@.balance_of(a) <= self@.total_supply,
            forall|o: AccountId, s: AccountId| #[trigger] self@.allowance(o, s) <= Balance::MAX,
    {
        self.balances.lemma_view_bounded();
        self.allowances.lemma_view_bounded();
        assert forall|a: AccountId| #[trigger] self@.balance_of(a) <= self@.total_supply by {
            lemma_sum_bounds_entry(self@.balances, a);
        }
    }

    /// Deploys a ledger: fixes the total supply at `init_value`, credits all
    /// of it to `caller`, and announces the minting.
    pub fn deploy(caller: AccountId, init_value: Balance) -> (ledger: Ledger)
        ensures
            ledger.wf(),
            ledger@ == LedgerState::deployed(caller, init_value),
    {
        let mut balances = BalanceStore::new(init_value);
        balances.set_balance(caller, init_value);
        let mut emitter = EventEmitter::new();
        emitter.deposit_event(Event::Transfer { from: None, to: Some(caller), value: init_value });
        let ledger = Ledger { balances, allowances: AllowanceStore::new(), emitter };
        proof {
            lemma_sum_empty::<AccountId>();
            lemma_sum_insert(Map::<AccountId, nat>::empty(), caller, init_value as nat);
        }
        ledger
    }

    /// The total number of units in existence.
    pub fn total_supply(&self) -> (supply: Balance)
        ensures
            supply == self@.total_supply,
    {
        self.balances.total_supply()
    }

    /// The balance of `owner`. An account that the ledger never wrote to
    /// holds nothing.
    pub fn balance_of(&self, owner: AccountId) -> (balance: Balance)
        requires
            self.wf(),
        ensures
            balance == self@.balance_of(owner),
            !self@.balances.dom().contains(owner) ==> balance == 0,
    {
        self.balances.balance_of(&owner)
    }

    /// What `spender` may still move out of the balance of `owner`. A pair
    /// for which nothing was ever approved has no allowance.
    pub fn allowance(&self, owner: AccountId, spender: AccountId) -> (allowance: Balance)
        requires
            self.wf(),
        ensures
            allowance == self@.allowance(owner, spender),
            !self@.allowances.dom().contains((Delegation { owner, spender })) ==> allowance == 0,
    {
        self.allowances.allowance_of(&owner, &spender)
    }

    /// Transfers `value` units from `caller` to `to`.
    ///
    /// Returns `false`, changing nothing and announcing nothing, if `caller`
    /// holds fewer than `value` units. Otherwise the units move, one
    /// transfer is announced, and the result is `true`. A transfer to oneself
    /// is valid and leaves every balance as it was.
    pub fn transfer(&mut self, caller: AccountId, to: AccountId, value: Balance) -> (done: bool)
        requires
            old(self).wf(),
        ensures
            final(self).wf(),
            done == old(self)@.covers(caller, value),
            final(self)@ == old(self)@.transfer(caller, to, value),
            !done ==> final(self)@ == old(self)@,
            done && caller != to ==> {
                &&& final(self)@.balance_of(caller) == old(self)@.balance_of(caller) - value
                &&& final(self)@.balance_of(to) == old(self)@.balance_of(to) + value
            },
            done && caller == to ==> final(self)@.balance_of(caller) == old(self)@.balance_of(
                caller,
            ),
            forall|a: AccountId|
                a != caller && a != to ==> #[trigger] final(self)@.balance_of(a) == old(
                    self,
                )@.balance_of(a),
            done ==> final(self)@.events == old(self)@.events.push(
                Event::Transfer { from: Some(caller), to: Some(to), value },
            ),
            final(self)@.allowances == old(self)@.allowances,
            final(self)@.total_supply == old(self)@.total_supply,
    {
        self.transfer_impl(caller, to, value)
    }

    /// Sets the allowance of `spender` on the balance of `caller` to exactly
    /// `value`, whatever it was before, and announces one approval. This
    /// always succeeds.
    pub fn approve(&mut self, caller: AccountId, spender: AccountId, value: Balance) -> (done: bool)
        requires
            old(self).wf(),
        ensures
            final(self).wf(),
            done,
            final(self)@ == old(self)@.approve(caller, spender, value),
            final(self)@.allowance(caller, spender) == value,
            forall|o: AccountId, s: AccountId|
                o != caller || s != spender ==> #[trigger] final(self)@.allowance(o, s) == old(
                    self,
                )@.allowance(o, s),
            final(self)@.events == old(self)@.events.push(
                Event::Approval { owner: caller, spender, value },
            ),
            final(self)@.balances == old(self)@.balances,
            final(self)@.total_supply == old(self)@.total_supply,
    {
        self.allowances.set_allowance(caller, spender, value);
        self.emitter.deposit_event(Event::Approval { owner: caller, spender, value });
        true
    }

    /// Transfers `value` units from `from` to `to` on the authority that
    /// `from` gave to `caller`.
    ///
    /// Returns `false`, changing nothing and announcing nothing, if the
    /// allowance of `caller` on the balance of `from` is below `value`, or
    /// if `from` holds fewer than `value` units. Otherwise the units move as
    /// in a transfer from `from` to `to`, the allowance shrinks by `value`,
    /// and the result is `true`.
    pub fn transfer_from(
        &mut self,
        caller: AccountId,
        from: AccountId,
        to: AccountId,
        value: Balance,
    ) -> (done: bool)
        requires
            old(self).wf(),
        ensures
            final(self).wf(),
            done == old(self)@.delegated(caller, from, value),
            final(self)@ == old(self)@.transfer_from(caller, from, to, value),
            !done ==> final(self)@ == old(self)@,
            done ==> final(self)@.balances == old(self)@.transfer(from, to, value).balances,
            done ==> final(self)@.events == old(self)@.transfer(from, to, value).events,
            done ==> final(self)@.allowance(from, caller) == old(self)@.allowance(from, caller)
                - value,
            forall|o: AccountId, s: AccountId|
                o != from || s != caller ==> #[trigger] final(self)@.allowance(o, s) == old(
                    self,
                )@.allowance(o, s),
            final(self)@.total_supply == old(self)@.total_supply,
    {
        let allowance = self.allowances.allowance_of(&from, &caller);
        if allowance < value {
            return false;
        }
        if !self.transfer_impl(from, to, value) {
            return false;
        }
        self.allowances.set_allowance(from, caller, allowance - value);
        true
    }

    /// Executes one call, whichever it is, and says whether it took effect.
    pub fn execute(&mut self, call: Call) -> (done: bool)
        requires
            old(self).wf(),
        ensures
            final(self).wf(),
            done == old(self)@.accepts(call),
            final(self)@ == old(self)@.step(call),
    {
        match call {
            Call::Transfer { caller, to, value } => self.transfer(caller, to, value),
            Call::Approve { caller, spender, value } => self.approve(caller, spender, value),
            Call::TransferFrom { caller, from, to, value } => self.transfer_from(
                caller,
                from,
                to,
                value,
            ),
        }
    }

    /// Takes out the events that the ledger announced since they were last
    /// taken, oldest first. Balances, allowances and the supply stay as they
    /// are.
    pub fn take_events(&mut self) -> (events: Vec<Event>)
        requires
            old(self).wf(),
        ensures
            final(self).wf(),
            events@ == old(self)@.events,
            final(self)@ == (LedgerState { events: Seq::empty(), ..old(self)@ }),
    {
        self.emitter.take_events()
    }

    /// The debit and credit shared by both kinds of transfer: if `from`
    /// holds at least `value` units, debits them from `from`, credits them to
    /// `to` and announces the transfer; if not, changes nothing.
    ///
    /// The credit cannot overflow: the balances add up to the total supply,
    /// so after the debit the balance of `to` and `value` together stay within
    /// it.
    fn transfer_impl(&mut self, from: AccountId, to: AccountId, value: Balance) -> (done: bool)
        requires
            old(self).wf(),
        ensures
            final(self).wf(),
            done == old(self)@.covers(from, value),
            final(self)@ == old(self)@.transfer(from, to, value),
    {
        let balance_from = self.balances.balance_of(&from);
        if balance_from < value {
            return false;
        }
        proof {
            self.balances.lemma_view_bounded();
            lemma_sum_insert(self.balances@, from, (balance_from - value) as nat);
        }
        self.balances.set_balance(from, balance_from - value);
        let balance_to = self.balances.balance_of(&to);
        proof {
            lemma_sum_bounds_entry(self.balances@, to);
            lemma_sum_insert(self.balances@, to, (balance_to + value) as nat);
        }
        self.balances.set_balance(to, balance_to + value);
        self.emitter.deposit_event(Event::Transfer { from: Some(from), to: Some(to), value });
        true
    }
}

} // verus!
