//! A fungible-token ledger with delegated spending.
//!
//! The ledger tracks a supply of units that is fixed when the ledger is
//! deployed, moves units between accounts, and lets an owner authorise a
//! spender to move a bounded amount on the owner's behalf. Every operation is
//! verified against an abstract state machine, and the sum of all balances is
//! proved to equal the total supply in every state an operation can produce.

pub mod account;
pub mod allowances;
pub mod balances;
pub mod event;
pub mod laws;
pub mod ledger;
pub mod state;
pub mod sum;
pub mod table;

pub use crate::account::{AccountId, Balance};
pub use crate::allowances::Delegation;
pub use crate::event::{Event, EventEmitter};
pub use crate::ledger::Ledger;
pub use crate::state::Call;
