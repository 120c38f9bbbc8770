//! The command surface.
//!
//! Every command comes in two steps. `plan` reads the store and says whether
//! the command is accepted and which ledger operations it calls for. The
//! caller performs those operations on the outside ledger and, once all of
//! them went through, lets `handler` commit the command to the store. A
//! command that `plan` accepts is accepted by `handler` on the same store at
//! the same time, with the same receipt; a refused command changes nothing.

use vstd::prelude::*;
use crate::key::EscrowRef;
use crate::ledger::LedgerOp;

pub mod close_escrow;
pub mod dispatcher;
pub mod initialize_escrow;
pub mod initialize_user_position;
pub mod place_bid;
pub mod reclaim_losing_bid;
pub mod settle;

verus! {

/// What an accepted command comes to: the escrow that it is about, and the
/// ledger operations that it calls for, in the order in which they are to be
/// performed.
#[derive(Clone, Debug, PartialEq, Eq)]
pub struct Receipt {
    /// The escrow that the command is about.
    pub escrow_ref: EscrowRef,
    /// The ledger operations that the command calls for.
    pub ops: Vec<LedgerOp>,
}

} // verus!
