//! The command that gives a losing bidder its funds back.

use vstd::prelude::*;
use crate::error::ErrorCode;
use crate::instructions::Receipt;
use crate::key::{Key, WindowRef};
use crate::ledger::LedgerOp;
use crate::store::{Store, StoreState};

verus! {

/// Returns to `bidder` the funds that the custody of the window holds of it.
#[derive(Clone, Copy, Debug, PartialEq, Eq, Structural)]
pub struct ReclaimLosingBid {
    /// Who placed the bid.
    pub bidder: Key,
    /// The window that the bid was placed into.
    pub window_ref: WindowRef,
}

impl StoreState {
    /// Why the reclaim is refused, or `None` where it is accepted:
    /// `InvalidParams` where the reference names no escrow, and else the
    /// verdict of the auction.
    pub open spec fn reclaim_verdict(self, args: ReclaimLosingBid) -> Option<ErrorCode> {
        if !self.holds(args.window_ref.escrow) {
            Some(ErrorCode::InvalidParams)
        } else {
            self.auction(args.window_ref.escrow).reclaim_verdict(args.window_ref.window_index, args.bidder)
        }
    }

    /// The store after the accepted reclaim; no other escrow changes.
    pub open spec fn after_reclaim(self, args: ReclaimLosingBid) -> StoreState {
        self.with_auction(args.window_ref.escrow, self.auction(args.window_ref.escrow).after_reclaim(args.window_ref.window_index, args.bidder))
    }

    /// The ledger operations of the accepted reclaim.
    pub open spec fn reclaim_ops(self, args: ReclaimLosingBid) -> Seq<LedgerOp> {
        self.auction(args.window_ref.escrow).reclaim_ops(args.window_ref.window_index, args.bidder)
    }

    /// The accepted command keeps the invariant of the store.
    pub proof fn lemma_after_reclaim_wf(self, args: ReclaimLosingBid)
        requires
            self.wf(),
            self.reclaim_verdict(args) is None,
        ensures
            self.after_reclaim(args).wf(),
    {
        let auction = self.auction(args.window_ref.escrow);
        auction.lemma_after_reclaim_wf(args.window_ref.window_index, args.bidder);
        self.lemma_with_auction_wf(args.window_ref.escrow, auction.after_reclaim(args.window_ref.window_index, args.bidder));
    }
}

/// Whether the command is accepted, and what it calls for.
///
/// Accepted exactly where `handler` accepts, with the same receipt, and
/// refused with the same error where it refuses.
pub fn plan(store: &Store, args: &ReclaimLosingBid) -> (r: Result<Receipt, ErrorCode>)
    requires
        store@.wf(),
    ensures
        r is Ok <==> store@.reclaim_verdict(*args) is None,
        r matches Ok(receipt) ==> receipt.escrow_ref == args.window_ref.escrow && receipt.ops@
            == store@.reclaim_ops(*args),
        r matches Err(e) ==> store@.reclaim_verdict(*args) == Some(e),
{
    let auction = match store.auction(args.window_ref.escrow) {
        Some(auction) => auction,
        None => {
            return Err(ErrorCode::InvalidParams);
        },
    };
    assert(store@.auctions[args.window_ref.escrow.index as int].wf());
    match auction.plan_reclaim(args.window_ref.window_index, args.bidder) {
        Ok(ops) => Ok(Receipt { escrow_ref: args.window_ref.escrow, ops }),
        Err(e) => Err(e),
    }
}

/// Gives the bidder its funds back.
///
/// Refused with `InvalidParams` where the reference names no escrow, and else
/// as `AuctionState::reclaim_verdict` says: with `NotBidder` where `bidder`
/// has no live bid in the window, which is also what the winner of a settled
/// window is told, and with `NotSettled` before the settlement. A refused
/// reclaim changes nothing. An accepted one removes the bid record, names the
/// transfer of its whole custody back to the bidder, and changes nothing else.
pub fn handler(store: &mut Store, args: &ReclaimLosingBid) -> (r: Result<Receipt, ErrorCode>)
    requires
        old(store)@.wf(),
    ensures
        final(store)@.wf(),
        r is Ok <==> old(store)@.reclaim_verdict(*args) is None,
        r matches Ok(receipt) ==> final(store)@ == old(store)@.after_reclaim(*args)
            && receipt.escrow_ref == args.window_ref.escrow && receipt.ops@ == old(store)@.reclaim_ops(*args),
        r matches Err(e) ==> old(store)@.reclaim_verdict(*args) == Some(e)
            && final(store)@ == old(store)@,
{
    if !store.holds(args.window_ref.escrow) {
        return Err(ErrorCode::InvalidParams);
    }
    assert(store@.auctions[args.window_ref.escrow.index as int].wf());
    let auction = store.auction_mut(args.window_ref.escrow);
    let done = auction.reclaim_bid(args.window_ref.window_index, args.bidder);
    match done {
        Ok(ops) => {
            proof {
                old(store)@.lemma_after_reclaim_wf(*args);
                assert(store@.auctions =~= old(store)@.after_reclaim(*args).auctions);
            }
            Ok(Receipt { escrow_ref: args.window_ref.escrow, ops })
        },
        Err(e) => {
            assert(store@.auctions =~= old(store)@.auctions);
            Err(e)
        },
    }
}

} // verus!
