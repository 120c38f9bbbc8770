//! The dispatcher: one entry point for all the commands.

use vstd::prelude::*;
use crate::error::ErrorCode;
use crate::instructions::close_escrow::CloseEscrow;
use crate::instructions::initialize_escrow::InitializeEscrow;
use crate::instructions::initialize_user_position::InitializeUserPosition;
use crate::instructions::place_bid::PlaceBid;
use crate::instructions::reclaim_losing_bid::ReclaimLosingBid;
use crate::instructions::settle::Settle;
use crate::instructions::{
    close_escrow, initialize_escrow, initialize_user_position, place_bid, reclaim_losing_bid,
    settle, Receipt,
};
use crate::key::EscrowRef;
use crate::ledger::LedgerOp;
use crate::store::{Store, StoreState};

verus! {

/// A command to the engine.
#[derive(Clone, Copy, Debug, PartialEq, Eq, Structural)]
pub enum Command {
    /// Make an escrow: lock the asset and mint the supply.
    InitializeEscrow(InitializeEscrow),
    /// Open a position that owns nothing.
    InitializeUserPosition(InitializeUserPosition),
    /// Bid into the open window.
    PlaceBid(PlaceBid),
    /// Settle a window that has closed.
    Settle(Settle),
    /// Give a losing bidder its funds back.
    ReclaimLosingBid(ReclaimLosingBid),
    /// Close the escrow and hand the asset back.
    CloseEscrow(CloseEscrow),
}

/// What the outside ledger made of the operations of a planned command.
#[derive(Clone, Copy, Debug, PartialEq, Eq, Structural)]
pub enum LedgerOutcome {
    /// All the operations went through.
    Performed,
    /// The ledger refused the operation in place `op` of the receipt, and
    /// none of the operations took effect.
    Refused { op: usize },
}

impl StoreState {
    /// Why the command is refused at the time `now`, or `None` where it is accepted.
    pub open spec fn verdict(self, command: Command, now: i64) -> Option<ErrorCode> {
        match command {
            Command::InitializeEscrow(args) => self.initialize_escrow_verdict(args, now),
            Command::InitializeUserPosition(args) => self.initialize_user_position_verdict(args),
            Command::PlaceBid(args) => self.place_bid_verdict(args, now),
            Command::Settle(args) => self.settle_verdict(args, now),
            Command::ReclaimLosingBid(args) => self.reclaim_verdict(args),
            Command::CloseEscrow(args) => self.close_verdict(args),
        }
    }

    /// The store after the command, where it is accepted at the time `now`.
    pub open spec fn after(self, command: Command, now: i64) -> StoreState {
        match command {
            Command::InitializeEscrow(args) => self.after_initialize_escrow(args, now),
            Command::InitializeUserPosition(args) => self.after_initialize_user_position(args),
            Command::PlaceBid(args) => self.after_place_bid(args, now),
            Command::Settle(args) => self.after_settle(args),
            Command::ReclaimLosingBid(args) => self.after_reclaim(args),
            Command::CloseEscrow(args) => self.after_close(args),
        }
    }

    /// The ledger operations that the command calls for, where it is
    /// accepted at the time `now`.
    pub open spec fn ops(self, command: Command, now: i64) -> Seq<LedgerOp> {
        match command {
            Command::InitializeEscrow(args) => self.initialize_escrow_ops(args, now),
            Command::InitializeUserPosition(_) => Seq::empty(),
            Command::PlaceBid(args) => self.place_bid_ops(args, now),
            Command::Settle(args) => self.settle_ops(args),
            Command::ReclaimLosingBid(args) => self.reclaim_ops(args),
            Command::CloseEscrow(args) => self.close_ops(args),
        }
    }

    /// The escrow that the command is about: the one that it names, and for
    /// a new escrow the reference that it gets.
    pub open spec fn subject(self, command: Command) -> EscrowRef {
        match command {
            Command::InitializeEscrow(_) => self.next_ref(),
            Command::InitializeUserPosition(args) => args.escrow_ref,
            Command::PlaceBid(args) => args.escrow_ref,
            Command::Settle(args) => args.escrow_ref,
            Command::ReclaimLosingBid(args) => args.window_ref.escrow,
            Command::CloseEscrow(args) => args.escrow_ref,
        }
    }

    /// The error under which the refusal of the operation in place `op` of
    /// the command surfaces: the failure code of that operation, and
    /// `InvalidParams` where the command has no such operation or the ledger
    /// has no way to refuse it.
    pub open spec fn refusal(self, command: Command, now: i64, op: usize) -> ErrorCode {
        let ops = self.ops(command, now);
        if op < ops.len() && ops[op as int].spec_failure_code() is Some {
            ops[op as int].spec_failure_code()->Some_0
        } else {
            ErrorCode::InvalidParams
        }
    }

    /// Why the command comes to nothing after the ledger was asked, or
    /// `None` where it is committed: the error of the verdict where the
    /// command is refused, and else the error of the ledger's refusal.
    pub open spec fn conclusion(
        self,
        command: Command,
        now: i64,
        outcome: LedgerOutcome,
    ) -> Option<ErrorCode> {
        match self.verdict(command, now) {
            Some(e) => Some(e),
            None => match outcome {
                LedgerOutcome::Performed => None,
                LedgerOutcome::Refused { op } => Some(self.refusal(command, now, op)),
            },
        }
    }

    /// An accepted command adds an escrow to the store exactly where it makes
    /// one, and then the new escrow is the one that the command is about.
    pub proof fn lemma_accepted_grows_by_its_subject(self, command: Command, now: i64)
        requires
            self.wf(),
            self.verdict(command, now) is None,
        ensures
            self.holds(self.subject(command)) <==> !(command is InitializeEscrow),
            self.after(command, now).auctions.len() == if command is InitializeEscrow {
                self.auctions.len() + 1
            } else {
                self.auctions.len()
            },
    {
    }

    /// The store after the command was sent at the time `now`: changed as
    /// the command says where it is accepted, and unchanged where it is refused.
    pub open spec fn step(self, command: Command, now: i64) -> StoreState {
        if self.verdict(command, now) is None {
            self.after(command, now)
        } else {
            self
        }
    }

    /// The store after a log of commands, each with the time at which it was
    /// sent, oldest first.
    pub open spec fn replay(self, log: Seq<(Command, i64)>) -> StoreState
        decreases log.len(),
    {
        if log.len() == 0 {
            self
        } else {
            self.replay(log.drop_last()).step(log.last().0, log.last().1)
        }
    }
}

/// Whether the command is accepted at the time `now`, and what it calls for.
///
/// Accepted exactly where `commit` accepts on the same store at the same
/// time, with the same receipt, and refused with the same error where it
/// refuses. The store does not change.
pub fn plan(store: &Store, command: &Command, now: i64) -> (r: Result<Receipt, ErrorCode>)
    requires
        store@.wf(),
    ensures
        r is Ok <==> store@.verdict(*command, now) is None,
        r matches Ok(receipt) ==> receipt.escrow_ref == store@.subject(*command) && receipt.ops@
            == store@.ops(*command, now),
        r matches Err(e) ==> store@.verdict(*command, now) == Some(e),
{
    match command {
        Command::InitializeEscrow(args) => initialize_escrow::plan(store, args, now),
        Command::InitializeUserPosition(args) => initialize_user_position::plan(store, args),
        Command::PlaceBid(args) => place_bid::plan(store, args, now),
        Command::Settle(args) => settle::plan(store, args, now),
        Command::ReclaimLosingBid(args) => reclaim_losing_bid::plan(store, args),
        Command::CloseEscrow(args) => close_escrow::plan(store, args),
    }
}

/// Commits the command to the store at the time `now`.
///
/// The command is accepted exactly where `StoreState::verdict` names no
/// error. The store is then as `StoreState::after` says, and the receipt
/// holds the escrow that the command is about and the ledger operations of
/// `StoreState::ops`. A refused command comes back with the error of the
/// verdict and changes nothing. Either way the store keeps its invariant.
pub fn commit(store: &mut Store, command: &Command, now: i64) -> (r: Result<Receipt, ErrorCode>)
    requires
        old(store)@.wf(),
    ensures
        final(store)@.wf(),
        final(store)@ == old(store)@.step(*command, now),
        r is Ok <==> old(store)@.verdict(*command, now) is None,
        r matches Ok(receipt) ==> final(store)@ == old(store)@.after(*command, now)
            && receipt.escrow_ref == old(store)@.subject(*command) && receipt.ops@ == old(store)@.ops(*command, now),
        r matches Err(e) ==> old(store)@.verdict(*command, now) == Some(e) && final(store)@
            == old(store)@,
{
    match command {
        Command::InitializeEscrow(args) => initialize_escrow::handler(store, args, now),
        Command::InitializeUserPosition(args) => initialize_user_position::handler(store, args),
        Command::PlaceBid(args) => place_bid::handler(store, args, now),
        Command::Settle(args) => settle::handler(store, args, now),
        Command::ReclaimLosingBid(args) => reclaim_losing_bid::handler(store, args),
        Command::CloseEscrow(args) => close_escrow::handler(store, args),
    }
}

/// Brings a planned command to its end, once the ledger was asked to perform
/// its operations.
///
/// Where the ledger performed them, the command is committed as by `commit`.
/// Where the ledger refused one, nothing is written: the store stays as it
/// is, and the error is the failure code of the refused operation
/// (`AssetUnavailable` for the lock, `LedgerInsufficient` for a credit of
/// fractions, `ValueInsufficient` for a transfer of value). A command that
/// the store itself refuses comes back with the error of its verdict,
/// whatever the ledger said.
pub fn conclude(store: &mut Store, command: &Command, now: i64, outcome: LedgerOutcome) -> (r:
    Result<Receipt, ErrorCode>)
    requires
        old(store)@.wf(),
    ensures
        final(store)@.wf(),
        r is Ok <==> old(store)@.conclusion(*command, now, outcome) is None,
        r matches Ok(receipt) ==> final(store)@ == old(store)@.after(*command, now)
            && receipt.escrow_ref == old(store)@.subject(*command) && receipt.ops@ == old(store)@.ops(*command, now),
        r matches Err(e) ==> old(store)@.conclusion(*command, now, outcome) == Some(e) && final(store)@ == old(store)@,
{
    match outcome {
        LedgerOutcome::Performed => commit(store, command, now),
        LedgerOutcome::Refused { op } => {
            let receipt = match plan(store, command, now) {
                Ok(receipt) => receipt,
                Err(e) => {
                    return Err(e);
                },
            };
            if op < receipt.ops.len() {
                match receipt.ops[op].failure_code() {
                    Some(code) => Err(code),
                    None => Err(ErrorCode::InvalidParams),
                }
            } else {
                Err(ErrorCode::InvalidParams)
            }
        },
    }
}

} // verus!
