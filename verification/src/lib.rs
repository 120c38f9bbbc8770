//! Core state machine of a fractionalization and perpetual auction engine.
//!
//! An escrow locks one asset, mints a fixed supply of fractions against it and
//! auctions a fixed slice of that supply in every window of its schedule. The
//! crate keeps the escrow records, the schedule, the bids with their custody and
//! the per-user fraction positions consistent with each other, and names the
//! ledger operations that each accepted command calls for.
//!
//! - `schedule`: the windows as a function of the genesis time, the window
//!   length and the clock.
//! - `state`: the records: escrow, window, bid, position.
//! - `model`: the auction of one escrow as a mathematical state, with the
//!   commands as functions on it and the invariant that they keep.
//! - `engine`: the executable auction of one escrow, specified against the model.
//! - `store`: the escrows of the engine, each under its reference.
//! - `instructions`: the commands, each with its plan and its handler, and
//!   the dispatcher.
//! - `versioned`: versions on the escrows, for callers that plan and commit
//!   at different times.
//! - `ledger`: the operations on the outside ledger that the commands name.
//! - `laws`: what holds of every state that the commands can reach.

pub mod engine;
pub mod error;
pub mod instructions;
pub mod key;
pub mod laws;
pub mod ledger;
pub mod model;
pub mod schedule;
pub mod state;
pub mod store;
pub mod versioned;
