//! A token escrow: a maker locks tokens of one mint in a vault owned by a
//! program-derived escrow account, asking for a fixed amount of another mint.
//! A taker settles the trade (`take`), or the maker withdraws it (`cancel`).
//!
//! The instruction processors are state machines: each call inspects the
//! current account snapshots and the outcome of the previous cross-program
//! invocation, and answers with the next thing the runtime must do.

pub mod error;
pub mod bytes;
pub mod account;
pub mod state;
pub mod token;
pub mod pda;
pub mod instructions;
pub mod laws;
