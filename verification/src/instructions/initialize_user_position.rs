//! The command that opens a position.

use vstd::prelude::*;
use crate::error::ErrorCode;
use crate::instructions::Receipt;
use crate::key::{EscrowRef, Key};
use crate::ledger::LedgerOp;
use crate::store::{Store, StoreState};

verus! {

/// Opens a position of `user` in the escrow, which owns nothing.
#[derive(Clone, Copy, Debug, PartialEq, Eq, Structural)]
pub struct InitializeUserPosition {
    /// The user.
    pub user: Key,
    /// The escrow.
    pub escrow_ref: EscrowRef,
}

impl StoreState {
    /// Why no position is opened, or `None` where one is: `InvalidParams`
    /// where the reference names no escrow, and else the verdict of the auction.
    pub open spec fn initialize_user_position_verdict(
        self,
        args: InitializeUserPosition,
    ) -> Option<ErrorCode> {
        if !self.holds(args.escrow_ref) {
            Some(ErrorCode::InvalidParams)
        } else {
            self.auction(args.escrow_ref).position_verdict(args.user)
        }
    }

    /// The store with the new position; no other escrow changes.
    pub open spec fn after_initialize_user_position(
        self,
        args: InitializeUserPosition,
    ) -> StoreState {
        self.with_auction(args.escrow_ref, self.auction(args.escrow_ref).with_position(args.user))
    }

    /// The accepted command keeps the invariant of the store.
    pub proof fn lemma_after_initialize_user_position_wf(self, args: InitializeUserPosition)
        requires
            self.wf(),
            self.initialize_user_position_verdict(args) is None,
        ensures
            self.after_initialize_user_position(args).wf(),
    {
        let auction = self.auction(args.escrow_ref);
        auction.lemma_with_position_wf(args.user);
        self.lemma_with_auction_wf(args.escrow_ref, auction.with_position(args.user));
    }
}

/// Whether the command is accepted; it calls for no ledger operation.
///
/// Accepted exactly where `handler` accepts, with the same receipt, and
/// refused with the same error where it refuses.
pub fn plan(store: &Store, args: &InitializeUserPosition) -> (r: Result<Receipt, ErrorCode>)
    requires
        store@.wf(),
    ensures
        r is Ok <==> store@.initialize_user_position_verdict(*args) is None,
        r matches Ok(receipt) ==> receipt.escrow_ref == args.escrow_ref && receipt.ops@
            == Seq::<LedgerOp>::empty(),
        r matches Err(e) ==> store@.initialize_user_position_verdict(*args) == Some(e),
{
    let auction = match store.auction(args.escrow_ref) {
        Some(auction) => auction,
        None => {
            return Err(ErrorCode::InvalidParams);
        },
    };
    assert(store@.auctions[args.escrow_ref.index as int].wf());
    match auction.plan_position(args.user) {
        Ok(()) => Ok(Receipt { escrow_ref: args.escrow_ref, ops: Vec::new() }),
        Err(e) => Err(e),
    }
}

/// Opens the position.
///
/// Refused with `InvalidParams` where the reference names no escrow or
/// `user` has a position in it already, and with `EscrowClosed` where the
/// escrow is closed. A refused command changes nothing. An accepted one adds
/// a position of `user` that owns nothing, calls for no ledger operation,
/// and changes nothing else.
pub fn handler(store: &mut Store, args: &InitializeUserPosition) -> (r: Result<Receipt, ErrorCode>)
    requires
        old(store)@.wf(),
    ensures
        final(store)@.wf(),
        r is Ok <==> old(store)@.initialize_user_position_verdict(*args) is None,
        r matches Ok(receipt) ==> final(store)@ == old(store)@.after_initialize_user_position(
            *args,
        ) && receipt.escrow_ref == args.escrow_ref && receipt.ops@ == Seq::<LedgerOp>::empty(),
        r matches Err(e) ==> old(store)@.initialize_user_position_verdict(*args) == Some(e)
            && final(store)@ == old(store)@,
{
    if !store.holds(args.escrow_ref) {
        return Err(ErrorCode::InvalidParams);
    }
    assert(store@.auctions[args.escrow_ref.index as int].wf());
    let auction = store.auction_mut(args.escrow_ref);
    let done = auction.open_position(args.user);
    match done {
        Ok(()) => {
            proof {
                old(store)@.lemma_after_initialize_user_position_wf(*args);
                assert(store@.auctions =~= old(store)@.after_initialize_user_position(
                    *args,
                ).auctions);
            }
            Ok(Receipt { escrow_ref: args.escrow_ref, ops: Vec::new() })
        },
        Err(e) => {
            assert(store@.auctions =~= old(store)@.auctions);
            Err(e)
        },
    }
}

} // verus!
