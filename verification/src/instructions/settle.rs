//! The command that settles a window.

use vstd::prelude::*;
use crate::error::ErrorCode;
use crate::instructions::Receipt;
use crate::key::EscrowRef;
use crate::ledger::LedgerOp;
use crate::store::{Store, StoreState};

verus! {

/// Settles the window with this index of the escrow. Anyone may send it.
#[derive(Clone, Copy, Debug, PartialEq, Eq, Structural)]
pub struct Settle {
    /// The escrow.
    pub escrow_ref: EscrowRef,
    /// The window to settle.
    pub window_index: u64,
}

impl StoreState {
    /// Why the settlement is refused, or `None` where it is accepted:
    /// `InvalidParams` where the reference names no escrow, and else the
    /// verdict of the auction.
    pub open spec fn settle_verdict(self, args: Settle, now: i64) -> Option<ErrorCode> {
        if !self.holds(args.escrow_ref) {
            Some(ErrorCode::InvalidParams)
        } else {
            self.auction(args.escrow_ref).settle_verdict(args.window_index, now)
        }
    }

    /// The store after the accepted settlement; no other escrow changes.
    pub open spec fn after_settle(self, args: Settle) -> StoreState {
        self.with_auction(args.escrow_ref, self.auction(args.escrow_ref).after_settle(args.window_index))
    }

    /// The ledger operations of the accepted settlement.
    pub open spec fn settle_ops(self, args: Settle) -> Seq<LedgerOp> {
        self.auction(args.escrow_ref).settle_ops(args.window_index)
    }

    /// The accepted command keeps the invariant of the store.
    pub proof fn lemma_after_settle_wf(self, args: Settle, now: i64)
        requires
            self.wf(),
            self.settle_verdict(args, now) is None,
        ensures
            self.after_settle(args).wf(),
    {
        let auction = self.auction(args.escrow_ref);
        auction.lemma_after_settle_wf(args.window_index, now);
        self.lemma_with_auction_wf(args.escrow_ref, auction.after_settle(args.window_index));
    }
}

/// Whether the command is accepted at the time `now`, and what it calls for.
///
/// Accepted exactly where `handler` accepts, with the same receipt, and
/// refused with the same error where it refuses.
pub fn plan(store: &Store, args: &Settle, now: i64) -> (r: Result<Receipt, ErrorCode>)
    requires
        store@.wf(),
    ensures
        r is Ok <==> store@.settle_verdict(*args, now) is None,
        r matches Ok(receipt) ==> receipt.escrow_ref == args.escrow_ref && receipt.ops@
            == store@.settle_ops(*args),
        r matches Err(e) ==> store@.settle_verdict(*args, now) == Some(e),
{
    let auction = match store.auction(args.escrow_ref) {
        Some(auction) => auction,
        None => {
            return Err(ErrorCode::InvalidParams);
        },
    };
    assert(store@.auctions[args.escrow_ref.index as int].wf());
    match auction.plan_settle(args.window_index, now) {
        Ok(ops) => Ok(Receipt { escrow_ref: args.escrow_ref, ops }),
        Err(e) => Err(e),
    }
}

/// Settles the window at the time `now`.
///
/// Refused with `InvalidParams` where the reference names no escrow, and else
/// as `AuctionState::settle_verdict` says: with `AlreadySettled` on a window
/// that has been settled, with `WindowNotClosed` before the closing time, and
/// with `NoBidsToSettle`, which reports that nothing was to be done, on a
/// window into which no bid was ever placed. A refused settlement changes
/// nothing. An accepted one settles the window, pays out as
/// `AuctionState::settle_ops` says, and changes no other escrow.
pub fn handler(store: &mut Store, args: &Settle, now: i64) -> (r: Result<Receipt, ErrorCode>)
    requires
        old(store)@.wf(),
    ensures
        final(store)@.wf(),
        r is Ok <==> old(store)@.settle_verdict(*args, now) is None,
        r matches Ok(receipt) ==> final(store)@ == old(store)@.after_settle(*args)
            && receipt.escrow_ref == args.escrow_ref && receipt.ops@ == old(store)@.settle_ops(*args),
        r matches Err(e) ==> old(store)@.settle_verdict(*args, now) == Some(e)
            && final(store)@ == old(store)@,
{
    if !store.holds(args.escrow_ref) {
        return Err(ErrorCode::InvalidParams);
    }
    assert(store@.auctions[args.escrow_ref.index as int].wf());
    let auction = store.auction_mut(args.escrow_ref);
    let done = auction.settle(args.window_index, now);
    match done {
        Ok(ops) => {
            proof {
                old(store)@.lemma_after_settle_wf(*args, now);
                assert(store@.auctions =~= old(store)@.after_settle(*args).auctions);
            }
            Ok(Receipt { escrow_ref: args.escrow_ref, ops })
        },
        Err(e) => {
            assert(store@.auctions =~= old(store)@.auctions);
            Err(e)
        },
    }
}

} // verus!
