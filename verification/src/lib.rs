//! A time-locked, trustless token-swap escrow.
//!
//! Two parties exchange two assets through an account that the program holds
//! in custody. The initializer opens a swap and deposits; inside a time
//! window a taker may complete it; the initializer may cancel it at any time
//! or give it a new window.
//!
//! - [`instruction`]: the four operations, their wire format, and the
//!   builders of ready-to-submit instructions.
//! - [`state`]: the escrow record and its stored form.
//! - [`timelock`]: when an exchange may execute.
//! - [`accounts`]: the roles of an operation's accounts, by position.
//! - [`custody`]: the balances a swap settles and the custody actions it asks
//!   for.
//! - [`authority`]: the program's derived custody authority.
//! - [`processor`]: the four handlers and the dispatcher in front of them.
//! - [`lifecycle`]: laws of the protocol as a whole.
//! - [`error`]: the protocol's errors and how the ledger sees them.
//! - [`address`], [`ledger`]: addresses as plain bytes, and the ledger SDK's
//!   types that the library hands through.
//!
//! The library touches no ledger. Handlers take what an operation reads as
//! plain values and return what it writes; the caller reads, performs and
//! persists.

pub mod accounts;
pub mod address;
pub mod authority;
pub mod custody;
pub mod error;
pub mod instruction;
pub mod ledger;
pub mod lifecycle;
pub mod processor;
pub mod state;
pub mod timelock;
