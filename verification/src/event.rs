//! The events by which the ledger announces its state changes, and the
//! emitter that holds them until an observer takes them.

use vstd::prelude::*;
use crate::account::{AccountId, Balance};

verus! {

/// An announcement of one state change.
#[derive(Clone, Copy, Debug, PartialEq, Eq)]
pub enum Event {
    /// `value` units moved from `from` to `to`. Without a `from`, the units
    /// were minted; without a `to`, they were burned.
    Transfer { from: Option<AccountId>, to: Option<AccountId>, value: Balance },
    /// `owner` authorised `spender` to move up to `value` units.
    Approval { owner: AccountId, spender: AccountId, value: Balance },
}

/// A sink that records the events deposited into it, oldest first, until
/// they are taken out.
pub struct EventEmitter {
    pending: Vec<Event>,
}

impl View for EventEmitter {
    type V = Seq<Event>;

    /// The events that were deposited and not yet taken, oldest first.
    closed spec fn view(&self) -> Seq<Event> {
        self.pending@
    }
}

impl EventEmitter {
    /// An emitter that holds no event.
    pub fn new() -> (emitter: EventEmitter)
        ensures
            emitter@ == Seq::<Event>::empty(),
    {
        EventEmitter { pending: Vec::new() }
    }

    /// Deposits an event behind those already held. This cannot fail.
    pub fn deposit_event(&mut self, event: Event)
        ensures
            final(self)@ == old(self)@.push(event),
    {
        self.pending.push(event);
    }

    /// Takes out every event held, oldest first, and leaves the emitter
    /// empty.
    pub fn take_events(&mut self) -> (events: Vec<Event>)
        ensures
            events@ == old(self)@,
            final(self)@ == Seq::<Event>::empty(),
    {
        let mut events: Vec<Event> = Vec::new();
        core::mem::swap(&mut self.pending, &mut events);
        events
    }
}

} // verus!
