//! The ledger as a mathematical state machine.
//!
//! A [`LedgerState`] is what an observer can know of a ledger: the total
//! supply, the balance of each account, the allowance of each pair, and the
//! events announced so far. Each operation of the ledger is a function from
//! one state to the next.

use vstd::prelude::*;
use crate::account::{AccountId, Balance};
use crate::event::Event;
use crate::sum::{sum_of, value_or_zero};
use crate::allowances::Delegation;

verus! {

/// The observable state of a ledger.
///
/// `balances` and `allowances` hold the accounts and pairs that were ever
/// written; whatever is outside their domains counts as zero.
#[verifier::ext_equal]
pub struct LedgerState {
    pub total_supply: nat,
    pub balances: Map<AccountId, nat>,
    pub allowances: Map<Delegation, nat>,
    pub events: Seq<Event>,
}

impl LedgerState {
    /// The balance of `owner`.
    pub open spec fn balance_of(self, owner: AccountId) -> nat {
        value_or_zero(self.balances, owner)
    }

    /// What `spender` may still move out of the balance of `owner`.
    pub open spec fn allowance(self, owner: AccountId, spender: AccountId) -> nat {
        value_or_zero(self.allowances, Delegation { owner, spender })
    }

    /// The balances add up to the total supply.
    pub open spec fn conserved(self) -> bool {
        &&& self.balances.dom().finite()
        &&& sum_of(self.balances) == self.total_supply
    }

    /// The state right after deployment: the whole supply is credited to
    /// `initializer`, no allowance exists, and the minting is announced as a
    /// transfer without a source.
    pub open spec fn deployed(initializer: AccountId, supply: Balance) -> LedgerState {
        LedgerState {
            total_supply: supply as nat,
            balances: Map::empty().insert(initializer, supply as nat),
            allowances: Map::empty(),
            events: Seq::empty().push(
                Event::Transfer { from: None, to: Some(initializer), value: supply },
            ),
        }
    }

    /// Whether `from` holds at least `value` units.
    pub open spec fn covers(self, from: AccountId, value: Balance) -> bool {
        value <= self.balance_of(from)
    }

    /// The state after `value` units were debited from `from` and then
    /// credited to `to`, and the transfer was announced. It is meant for a
    /// state in which `from` covers `value`.
    pub open spec fn moved(self, from: AccountId, to: AccountId, value: Balance) -> LedgerState {
        let debited = self.balances.insert(from, (self.balance_of(from) - value) as nat);
        let credited = debited.insert(to, (value_or_zero(debited, to) + value) as nat);
        LedgerState {
            balances: credited,
            events: self.events.push(Event::Transfer { from: Some(from), to: Some(to), value }),
            ..self
        }
    }

    /// The state after `caller` asked to transfer `value` units to `to`:
    /// the units moved if `caller` covers them, and nothing changed if not.
    pub open spec fn transfer(self, caller: AccountId, to: AccountId, value: Balance) -> LedgerState {
        if self.covers(caller, value) {
            self.moved(caller, to, value)
        } else {
            self
        }
    }

    /// The state after `caller` set the allowance of `spender` on the
    /// caller's own balance to `value`, and the approval was announced.
    pub open spec fn approve(
        self,
        caller: AccountId,
        spender: AccountId,
        value: Balance,
    ) -> LedgerState {
        LedgerState {
            allowances: self.allowances.insert(Delegation { owner: caller, spender }, value as nat),
            events: self.events.push(Event::Approval { owner: caller, spender, value }),
            ..self
        }
    }

    /// Whether `caller` may move `value` units out of the balance of `from`:
    /// the allowance that `from` gave to `caller` and the balance of `from`
    /// both reach `value`.
    pub open spec fn delegated(self, caller: AccountId, from: AccountId, value: Balance) -> bool {
        &&& value <= self.allowance(from, caller)
        &&& self.covers(from, value)
    }

    /// The state after `caller` asked to transfer `value` units from `from`
    /// to `to`: if `caller` was allowed to, the units moved and the allowance
    /// shrank by `value`; if not, nothing changed.
    pub open spec fn transfer_from(
        self,
        caller: AccountId,
        from: AccountId,
        to: AccountId,
        value: Balance,
    ) -> LedgerState {
        if self.delegated(caller, from, value) {
            LedgerState {
                allowances: self.allowances.insert(
                    Delegation { owner: from, spender: caller },
                    (self.allowance(from, caller) - value) as nat,
                ),
                ..self.moved(from, to, value)
            }
        } else {
            self
        }
    }
}

/// One state-changing call on a deployed ledger, together with the identity
/// of its caller.
#[derive(Clone, Copy, Debug)]
pub enum Call {
    /// `caller` transfers `value` units to `to`.
    Transfer { caller: AccountId, to: AccountId, value: Balance },
    /// `caller` sets the allowance of `spender` on the caller's balance.
    Approve { caller: AccountId, spender: AccountId, value: Balance },
    /// `caller` transfers `value` units from `from` to `to` on an allowance.
    TransferFrom { caller: AccountId, from: AccountId, to: AccountId, value: Balance },
}

impl Call {
    /// Whether the call names `account` as the source or the destination of
    /// a movement of units.
    pub open spec fn moves(self, account: AccountId) -> bool {
        match self {
            Call::Transfer { caller, to, .. } => account == caller || account == to,
            Call::Approve { .. } => false,
            Call::TransferFrom { from, to, .. } => account == from || account == to,
        }
    }

    /// Whether the call concerns the allowance of `spender` on the balance
    /// of `owner`: it approves it, or it spends from it.
    pub open spec fn concerns(self, owner: AccountId, spender: AccountId) -> bool {
        match self {
            Call::Transfer { .. } => false,
            Call::Approve { caller, spender: approved, .. } => caller == owner && approved
                == spender,
            Call::TransferFrom { caller, from, .. } => from == owner && caller == spender,
        }
    }
}

impl LedgerState {
    /// The state after one call.
    pub open spec fn step(self, call: Call) -> LedgerState {
        match call {
            Call::Transfer { caller, to, value } => self.transfer(caller, to, value),
            Call::Approve { caller, spender, value } => self.approve(caller, spender, value),
            Call::TransferFrom { caller, from, to, value } => self.transfer_from(
                caller,
                from,
                to,
                value,
            ),
        }
    }

    /// Whether the call takes effect in this state.
    pub open spec fn accepts(self, call: Call) -> bool {
        match call {
            Call::Transfer { caller, value, .. } => self.covers(caller, value),
            Call::Approve { .. } => true,
            Call::TransferFrom { caller, from, value, .. } => self.delegated(caller, from, value),
        }
    }

    /// The state after a sequence of calls, executed in order.
    pub open spec fn run(self, calls: Seq<Call>) -> LedgerState
        decreases calls.len(),
    {
        if calls.len() == 0 {
            self
        } else {
            self.run(calls.drop_last()).step(calls.last())
        }
    }
}

} // verus!
