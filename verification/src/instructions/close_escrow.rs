//! The command that closes an escrow.

use vstd::prelude::*;
use crate::error::ErrorCode;
use crate::instructions::Receipt;
use crate::key::{EscrowRef, Key};
use crate::ledger::LedgerOp;
use crate::store::{Store, StoreState};

verus! {

/// Closes the escrow and hands the asset back to `depositor`.
#[derive(Clone, Copy, Debug, PartialEq, Eq, Structural)]
pub struct CloseEscrow {
    /// Who sends the command: it has to be the depositor of the escrow.
    pub depositor: Key,
    /// The escrow to close.
    pub escrow_ref: EscrowRef,
}

impl StoreState {
    /// Why the close is refused, or `None` where it is accepted: `InvalidParams`
    /// where the reference names no escrow, and else the verdict of the auction.
    pub open spec fn close_verdict(self, args: CloseEscrow) -> Option<ErrorCode> {
        if !self.holds(args.escrow_ref) {
            Some(ErrorCode::InvalidParams)
        } else {
            self.auction(args.escrow_ref).close_verdict(args.depositor)
        }
    }

    /// The store after the accepted close; no other escrow changes.
    pub open spec fn after_close(self, args: CloseEscrow) -> StoreState {
        self.with_auction(args.escrow_ref, self.auction(args.escrow_ref).after_close())
    }

    /// The ledger operations of the accepted close.
    pub open spec fn close_ops(self, args: CloseEscrow) -> Seq<LedgerOp> {
        self.auction(args.escrow_ref).close_ops()
    }

    /// The accepted command keeps the invariant of the store.
    pub proof fn lemma_after_close_wf(self, args: CloseEscrow)
        requires
            self.wf(),
            self.close_verdict(args) is None,
        ensures
            self.after_close(args).wf(),
    {
        let auction = self.auction(args.escrow_ref);
        auction.lemma_after_close_wf(args.depositor);
        self.lemma_with_auction_wf(args.escrow_ref, auction.after_close());
    }
}

/// Whether the command is accepted, and what it calls for.
///
/// Accepted exactly where `handler` accepts, with the same receipt, and
/// refused with the same error where it refuses.
pub fn plan(store: &Store, args: &CloseEscrow) -> (r: Result<Receipt, ErrorCode>)
    requires
        store@.wf(),
    ensures
        r is Ok <==> store@.close_verdict(*args) is None,
        r matches Ok(receipt) ==> receipt.escrow_ref == args.escrow_ref && receipt.ops@
            == store@.close_ops(*args),
        r matches Err(e) ==> store@.close_verdict(*args) == Some(e),
{
    let auction = match store.auction(args.escrow_ref) {
        Some(auction) => auction,
        None => {
            return Err(ErrorCode::InvalidParams);
        },
    };
    assert(store@.auctions[args.escrow_ref.index as int].wf());
    match auction.plan_close(args.depositor) {
        Ok(ops) => Ok(Receipt { escrow_ref: args.escrow_ref, ops }),
        Err(e) => Err(e),
    }
}

/// Closes the escrow.
///
/// Refused with `InvalidParams` where the reference names no escrow, and else
/// as `AuctionState::close_verdict` says: with `EscrowClosed` where it is
/// closed already, with `NotDepositor` for any caller but the depositor, with
/// `NotSettled` while a window waits for its settlement, and with
/// `AlreadySettled` once a window was settled with a winner. A refused close
/// changes nothing. An accepted one closes the escrow, leaves no window and
/// no bid on record, names the return of the whole supply and of the asset
/// to the depositor, and changes no other escrow.
pub fn handler(store: &mut Store, args: &CloseEscrow) -> (r: Result<Receipt, ErrorCode>)
    requires
        old(store)@.wf(),
    ensures
        final(store)@.wf(),
        r is Ok <==> old(store)@.close_verdict(*args) is None,
        r matches Ok(receipt) ==> final(store)@ == old(store)@.after_close(*args)
            && receipt.escrow_ref == args.escrow_ref && receipt.ops@ == old(store)@.close_ops(*args),
        r matches Err(e) ==> old(store)@.close_verdict(*args) == Some(e)
            && final(store)@ == old(store)@,
{
    if !store.holds(args.escrow_ref) {
        return Err(ErrorCode::InvalidParams);
    }
    assert(store@.auctions[args.escrow_ref.index as int].wf());
    let auction = store.auction_mut(args.escrow_ref);
    let done = auction.close(args.depositor);
    match done {
        Ok(ops) => {
            proof {
                old(store)@.lemma_after_close_wf(*args);
                assert(store@.auctions =~= old(store)@.after_close(*args).auctions);
            }
            Ok(Receipt { escrow_ref: args.escrow_ref, ops })
        },
        Err(e) => {
            assert(store@.auctions =~= old(store)@.auctions);
            Err(e)
        },
    }
}

} // verus!
