//! What holds of every ledger, whatever calls it has executed.

use vstd::prelude::*;
use crate::account::{AccountId, Balance};
use crate::state::{Call, LedgerState};
use crate::sum::{lemma_sum_bounds_entry, lemma_sum_empty, lemma_sum_insert, value_or_zero};

verus! {

/// Deployment conserves: the balances of a freshly deployed ledger add up to
/// its total supply, which is the initial value.
pub proof fn lemma_deployed_conserves(initializer: AccountId, supply: Balance)
    ensures
        LedgerState::deployed(initializer, supply).conserved(),
        LedgerState::deployed(initializer, supply).total_supply == supply,
{
    lemma_sum_empty::<AccountId>();
    lemma_sum_insert(Map::<AccountId, nat>::empty(), initializer, supply as nat);
}

/// A debit and credit conserves: where `from` covers `value`, moving the
/// units changes neither the sum of the balances nor the total supply.
pub proof fn lemma_moved_conserves(s: LedgerState, from: AccountId, to: AccountId, value: Balance)
    requires
        s.conserved(),
        s.covers(from, value),
    ensures
        s.moved(from, to, value).conserved(),
        s.moved(from, to, value).total_supply == s.total_supply,
{
    let debited = s.balances.insert(from, (s.balance_of(from) - value) as nat);
    lemma_sum_insert(s.balances, from, (s.balance_of(from) - value) as nat);
    lemma_sum_insert(debited, to, (value_or_zero(debited, to) + value) as nat);
}

/// Every call conserves: whatever the call and whether or not it takes
/// effect, the balances still add up to the total supply afterwards, and the
/// total supply is what it was.
pub proof fn lemma_step_conserves(s: LedgerState, call: Call)
    requires
        s.conserved(),
    ensures
        s.step(call).conserved(),
        s.step(call).total_supply == s.total_supply,
{
    match call {
        Call::Transfer { caller, to, value } => {
            if s.covers(caller, value) {
                lemma_moved_conserves(s, caller, to, value);
            }
        },
        Call::Approve { .. } => {},
        Call::TransferFrom { caller, from, to, value } => {
            if s.delegated(caller, from, value) {
                lemma_moved_conserves(s, from, to, value);
            }
        },
    }
}

/// Conservation: in every state that a ledger can reach from its deployment,
/// by any sequence of calls from any callers, the balances add up to the
/// total supply, and the total supply is the value the ledger was deployed
/// with.
pub proof fn theorem_conservation(initializer: AccountId, supply: Balance, calls: Seq<Call>)
    ensures
        LedgerState::deployed(initializer, supply).run(calls).conserved(),
        LedgerState::deployed(initializer, supply).run(calls).total_supply == supply,
    decreases calls.len(),
{
    if calls.len() == 0 {
        lemma_deployed_conserves(initializer, supply);
    } else {
        theorem_conservation(initializer, supply, calls.drop_last());
        lemma_step_conserves(
            LedgerState::deployed(initializer, supply).run(calls.drop_last()),
            calls.last(),
        );
    }
}

/// No balance exceeds the total supply of a state whose balances add up to
/// it.
pub proof fn lemma_balance_within_supply(s: LedgerState, owner: AccountId)
    requires
        s.conserved(),
    ensures
        s.balance_of(owner) <= s.total_supply,
{
    lemma_sum_bounds_entry(s.balances, owner);
}

/// A credit stays within the supply: after a debit and credit no account
/// holds more than the total supply, so where the supply fits the width of a
/// balance, the credited balance fits it too and the credit cannot overflow.
pub proof fn lemma_credit_stays_within_supply(
    s: LedgerState,
    from: AccountId,
    to: AccountId,
    value: Balance,
    owner: AccountId,
)
    requires
        s.conserved(),
        s.covers(from, value),
    ensures
        s.moved(from, to, value).balance_of(owner) <= s.total_supply,
{
    lemma_moved_conserves(s, from, to, value);
    lemma_balance_within_supply(s.moved(from, to, value), owner);
}

/// Entries are never deleted: an account or a pair that was written before a
/// call is still written after it.
pub proof fn lemma_entries_are_never_deleted(s: LedgerState, call: Call)
    ensures
        s.balances.dom().subset_of(s.step(call).balances.dom()),
        s.allowances.dom().subset_of(s.step(call).allowances.dom()),
{
}

/// The supply is fixed: no call changes the total supply.
pub proof fn lemma_supply_is_fixed(s: LedgerState, call: Call)
    ensures
        s.step(call).total_supply == s.total_supply,
{
}

/// A call that takes effect announces exactly one event, behind those
/// announced before; a call that does not take effect announces none.
pub proof fn lemma_one_event_per_accepted_call(s: LedgerState, call: Call)
    ensures
        s.accepts(call) ==> s.step(call).events.len() == s.events.len() + 1,
        s.accepts(call) ==> s.step(call).events.drop_last() == s.events,
        !s.accepts(call) ==> s.step(call).events == s.events,
{
    if s.accepts(call) {
        assert(s.step(call).events.drop_last() =~= s.events);
    }
}

/// A call that does not take effect leaves the state exactly as it was: no
/// balance, no allowance and no event changes.
pub proof fn lemma_rejected_call_changes_nothing(s: LedgerState, call: Call)
    requires
        !s.accepts(call),
    ensures
        s.step(call) == s,
{
}

/// A transfer that takes effect debits the caller and credits the
/// destination by the same amount, leaves every other balance and every
/// allowance alone, and announces exactly one event. Where the caller is the
/// destination, no balance changes.
pub proof fn lemma_transfer_moves_value(
    s: LedgerState,
    caller: AccountId,
    to: AccountId,
    value: Balance,
)
    requires
        s.covers(caller, value),
    ensures
        caller != to ==> s.transfer(caller, to, value).balance_of(caller) == s.balance_of(caller)
            - value,
        caller != to ==> s.transfer(caller, to, value).balance_of(to) == s.balance_of(to) + value,
        caller == to ==> s.transfer(caller, to, value).balance_of(caller) == s.balance_of(caller),
        forall|a: AccountId|
            a != caller && a != to ==> #[trigger] s.transfer(caller, to, value).balance_of(a)
                == s.balance_of(a),
        s.transfer(caller, to, value).allowances == s.allowances,
        s.transfer(caller, to, value).events.len() == s.events.len() + 1,
{
}

/// An approval overwrites: after two approvals for the same pair, the
/// allowance is the value of the second, whatever the first was.
pub proof fn lemma_approve_overwrites(
    s: LedgerState,
    caller: AccountId,
    spender: AccountId,
    first: Balance,
    second: Balance,
)
    ensures
        s.approve(caller, spender, first).approve(caller, spender, second).allowance(
            caller,
            spender,
        ) == second,
{
}

/// Allowances are directed: an approval that `caller` gives to `spender`
/// leaves the allowance that `spender` gave to `caller` as it was, unless the
/// two are the same account.
pub proof fn lemma_approve_is_directed(
    s: LedgerState,
    caller: AccountId,
    spender: AccountId,
    value: Balance,
)
    requires
        caller != spender,
    ensures
        s.approve(caller, spender, value).allowance(spender, caller) == s.allowance(
            spender,
            caller,
        ),
{
}

/// A delegated transfer that takes effect moves the units exactly as a
/// transfer from `from` to `to` would, and shrinks the allowance that
/// `from` gave to `caller` by the amount moved.
pub proof fn lemma_transfer_from_spends_allowance(
    s: LedgerState,
    caller: AccountId,
    from: AccountId,
    to: AccountId,
    value: Balance,
)
    requires
        s.delegated(caller, from, value),
    ensures
        s.transfer_from(caller, from, to, value).balances == s.transfer(from, to, value).balances,
        s.transfer_from(caller, from, to, value).events == s.transfer(from, to, value).events,
        s.transfer_from(caller, from, to, value).allowance(from, caller) == s.allowance(
            from,
            caller,
        ) - value,
        forall|o: AccountId, p: AccountId|
            o != from || p != caller ==> #[trigger] s.transfer_from(
                caller,
                from,
                to,
                value,
            ).allowance(o, p) == s.allowance(o, p),
{
}

/// An account that was never touched holds nothing: if it is not the one
/// that deployed the ledger and no call named it as source or destination,
/// its balance is zero.
pub proof fn lemma_untouched_account_is_empty(
    initializer: AccountId,
    supply: Balance,
    calls: Seq<Call>,
    account: AccountId,
)
    requires
        account != initializer,
        forall|i: int| 0 <= i < calls.len() ==> !(#[trigger] calls[i]).moves(account),
    ensures
        LedgerState::deployed(initializer, supply).run(calls).balance_of(account) == 0,
    decreases calls.len(),
{
    if calls.len() > 0 {
        let front = calls.drop_last();
        assert forall|i: int| 0 <= i < front.len() implies !(#[trigger] front[i]).moves(account) by {
            assert(front[i] == calls[i]);
        }
        lemma_untouched_account_is_empty(initializer, supply, front, account);
        assert(!calls[calls.len() - 1].moves(account));
    }
}

/// A pair that was never touched has no allowance: if no call approved the
/// pair or spent from it, its allowance is zero.
pub proof fn lemma_untouched_pair_has_no_allowance(
    initializer: AccountId,
    supply: Balance,
    calls: Seq<Call>,
    owner: AccountId,
    spender: AccountId,
)
    requires
        forall|i: int| 0 <= i < calls.len() ==> !(#[trigger] calls[i]).concerns(owner, spender),
    ensures
        LedgerState::deployed(initializer, supply).run(calls).allowance(owner, spender) == 0,
    decreases calls.len(),
{
    if calls.len() > 0 {
        let front = calls.drop_last();
        assert forall|i: int| 0 <= i < front.len() implies !(#[trigger] front[i]).concerns(
            owner,
            spender,
        ) by {
            assert(front[i] == calls[i]);
        }
        lemma_untouched_pair_has_no_allowance(initializer, supply, front, owner, spender);
        assert(!calls[calls.len() - 1].concerns(owner, spender));
        let before = LedgerState::deployed(initializer, supply).run(front);
        assert(before.step(calls.last()).allowance(owner, spender) == before.allowance(
            owner,
            spender,
        ));
    }
}

} // verus!
