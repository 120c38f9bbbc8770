//! The command that places a bid.

use vstd::prelude::*;
use crate::engine::RicksAuction;
use crate::error::ErrorCode;
use crate::instructions::Receipt;
use crate::key::{EscrowRef, Key};
use crate::ledger::LedgerOp;
use crate::model::AuctionState;
use crate::schedule::window_index;
use crate::store::{Store, StoreState};

verus! {

/// Places a bid of `amount` by `bidder` into the window of the escrow that is
/// open when the command arrives.
#[derive(Clone, Copy, Debug, PartialEq, Eq, Structural)]
pub struct PlaceBid {
    /// Who bids.
    pub bidder: Key,
    /// The escrow whose fractions are bid for.
    pub escrow_ref: EscrowRef,
    /// The amount bid.
    pub amount: u64,
}

impl AuctionState {
    /// The index of the window that holds the time `now`, as a window index.
    pub open spec fn current_window(self, now: i64) -> u64 {
        self.current_index(now) as u64
    }
}

impl StoreState {
    /// Why the bid is refused, or `None` where it is accepted:
    /// `InvalidParams` where the reference names no escrow, and else the
    /// verdict of the auction on a bid into the window that holds `now`.
    pub open spec fn place_bid_verdict(self, args: PlaceBid, now: i64) -> Option<ErrorCode> {
        if !self.holds(args.escrow_ref) {
            Some(ErrorCode::InvalidParams)
        } else {
            let auction = self.auction(args.escrow_ref);
            auction.bid_verdict(auction.current_window(now), args.bidder, args.amount, now)
        }
    }

    /// The store after the accepted bid: the bid is placed into the window
    /// that holds `now`, and no other escrow changes.
    pub open spec fn after_place_bid(self, args: PlaceBid, now: i64) -> StoreState {
        let auction = self.auction(args.escrow_ref);
        self.with_auction(
            args.escrow_ref,
            auction.after_bid(auction.current_window(now), args.bidder, args.amount),
        )
    }

    /// The ledger operations of the accepted bid.
    pub open spec fn place_bid_ops(self, args: PlaceBid, now: i64) -> Seq<LedgerOp> {
        let auction = self.auction(args.escrow_ref);
        auction.bid_ops(auction.current_window(now), args.bidder, args.amount)
    }

    /// An accepted bid keeps the invariant of the store.
    pub proof fn lemma_after_place_bid_wf(self, args: PlaceBid, now: i64)
        requires
            self.wf(),
            self.place_bid_verdict(args, now) is None,
        ensures
            self.after_place_bid(args, now).wf(),
    {
        let auction = self.auction(args.escrow_ref);
        let index = auction.current_window(now);
        auction.lemma_after_bid_wf(index, args.bidder, args.amount, now);
        auction.lemma_with_window_wf(index, now);
        self.lemma_with_auction_wf(
            args.escrow_ref,
            auction.after_bid(index, args.bidder, args.amount),
        );
    }
}

/// The window of the escrow that holds the time `now`, where the escrow is
/// known, locked and has started.
fn resolve<'a>(store: &'a Store, args: &PlaceBid, now: i64) -> (r: Result<
    (&'a RicksAuction, u64),
    ErrorCode,
>)
    requires
        store@.wf(),
    ensures
        r matches Ok((auction, index)) ==> store@.holds(args.escrow_ref) && auction@
            == store@.auction(args.escrow_ref) && auction@.wf() && index
            == auction@.current_window(now),
        r matches Err(e) ==> store@.place_bid_verdict(*args, now) == Some(e),
{
    let auction = match store.auction(args.escrow_ref) {
        Some(auction) => auction,
        None => {
            return Err(ErrorCode::InvalidParams);
        },
    };
    let escrow = auction.escrow();
    if !escrow.is_locked() {
        return Err(ErrorCode::EscrowClosed);
    }
    assert(store@.auctions[args.escrow_ref.index as int].wf());
    match window_index(escrow.genesis_time, escrow.window_length, now) {
        Ok(index) => Ok((auction, index)),
        Err(e) => Err(e),
    }
}

/// Whether the bid is accepted at the time `now`, and what it calls for.
///
/// Accepted exactly where `handler` accepts, with the same receipt, and
/// refused with the same error where it refuses.
pub fn plan(store: &Store, args: &PlaceBid, now: i64) -> (r: Result<Receipt, ErrorCode>)
    requires
        store@.wf(),
    ensures
        r is Ok <==> store@.place_bid_verdict(*args, now) is None,
        r matches Ok(receipt) ==> receipt.escrow_ref == args.escrow_ref && receipt.ops@
            == store@.place_bid_ops(*args, now),
        r matches Err(e) ==> store@.place_bid_verdict(*args, now) == Some(e),
{
    let (auction, index) = match resolve(store, args, now) {
        Ok(found) => found,
        Err(e) => {
            return Err(e);
        },
    };
    match auction.plan_bid(index, args.bidder, args.amount, now) {
        Ok(ops) => Ok(Receipt { escrow_ref: args.escrow_ref, ops }),
        Err(e) => Err(e),
    }
}

/// Places the bid at the time `now`.
///
/// The bid goes into the window that holds `now`, which is opened where it is
/// not on record yet. It is refused with `InvalidParams` where the reference
/// names no escrow, and else as `StoreState::place_bid_verdict` says; on a
/// window with a leading bid it is accepted exactly where the amount exceeds
/// that bid. A refused bid changes nothing; an accepted bid changes no other
/// escrow, no position and no supply.
pub fn handler(store: &mut Store, args: &PlaceBid, now: i64) -> (r: Result<Receipt, ErrorCode>)
    requires
        old(store)@.wf(),
    ensures
        final(store)@.wf(),
        r is Ok <==> old(store)@.place_bid_verdict(*args, now) is None,
        r matches Ok(receipt) ==> final(store)@ == old(store)@.after_place_bid(*args, now)
            && receipt.escrow_ref == args.escrow_ref && receipt.ops@ == old(store)@.place_bid_ops(*args, now),
        r matches Err(e) ==> old(store)@.place_bid_verdict(*args, now) == Some(e) && final(store)@
            == old(store)@,
{
    let index: u64 = match resolve(store, args, now) {
        Ok((_, index)) => index,
        Err(e) => {
            return Err(e);
        },
    };
    let auction = store.auction_mut(args.escrow_ref);
    let placed = auction.place_bid(index, args.bidder, args.amount, now);
    match placed {
        Ok(ops) => {
            proof {
                old(store)@.lemma_after_place_bid_wf(*args, now);
                assert(store@.auctions =~= old(store)@.after_place_bid(*args, now).auctions);
            }
            Ok(Receipt { escrow_ref: args.escrow_ref, ops })
        },
        Err(e) => {
            assert(store@.auctions =~= old(store)@.auctions);
            Err(e)
        },
    }
}

} // verus!
