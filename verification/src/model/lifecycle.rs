//! Making an escrow, opening a position, and closing the escrow.

use vstd::prelude::*;
use crate::error::ErrorCode;
use crate::key::{EscrowRef, Key};
use crate::ledger::LedgerOp;
use crate::model::{bid_backs, window_covers, AuctionState};
use crate::state::escrow::{Escrow, EscrowParams, EscrowStatus};
use crate::state::user_position::{
    lemma_total_owned_push, lemma_total_owned_zero, total_owned, UserPosition,
};

verus! {

impl AuctionState {
    // ----- making an escrow -----
    /// The state of a new escrow: locked, with the whole supply outstanding,
    /// and without a window, a bid or a position.
    pub open spec fn initial(escrow_ref: EscrowRef, params: EscrowParams) -> AuctionState {
        AuctionState {
            escrow_ref,
            escrow: params.spec_escrow(),
            windows: Seq::empty(),
            bids: Seq::empty(),
            positions: Seq::empty(),
        }
    }

    /// The ledger operations that make an escrow: the asset is locked, and the
    /// supply is minted into the fraction custody of the escrow.
    pub open spec fn initial_ops(escrow_ref: EscrowRef, params: EscrowParams) -> Seq<LedgerOp> {
        seq![
            LedgerOp::LockAsset { depositor: params.depositor, asset_ref: params.asset_ref },
            LedgerOp::MintFractions {
                mint_ref: params.fraction_mint_ref,
                to_custody: escrow_ref,
                amount: params.total_fractions,
            },
        ]
    }

    /// A new escrow made from valid parameters satisfies the invariant.
    pub proof fn lemma_initial_wf(escrow_ref: EscrowRef, params: EscrowParams)
        requires
            params.valid(),
        ensures
            Self::initial(escrow_ref, params).wf(),
            Self::initial(escrow_ref, params).escrow.outstanding_fractions
                == params.total_fractions,
    {
    }

    // ----- opening a position -----
    /// Why no position can be opened for `user`, or `None` where one can.
    ///
    /// In this order: `EscrowClosed`; `InvalidParams` where `user` has a
    /// position already.
    pub open spec fn position_verdict(self, user: Key) -> Option<ErrorCode> {
        if self.escrow.status == EscrowStatus::Closed {
            Some(ErrorCode::EscrowClosed)
        } else if self.holds_position(user) {
            Some(ErrorCode::InvalidParams)
        } else {
            None
        }
    }

    /// The state with a new position of `user` that owns nothing.
    pub open spec fn with_position(self, user: Key) -> AuctionState {
        AuctionState {
            positions: self.positions.push(
                UserPosition { escrow_ref: self.escrow_ref, user, fractions_owned: 0 },
            ),
            ..self
        }
    }

    /// Opening a position keeps the invariant; the new position owns nothing
    /// and no other position changes.
    pub proof fn lemma_with_position_wf(self, user: Key)
        requires
            self.wf(),
            self.position_verdict(user) is None,
        ensures
            self.with_position(user).wf(),
            self.with_position(user).position(user) == Some(
                UserPosition { escrow_ref: self.escrow_ref, user, fractions_owned: 0 },
            ),
            forall|other: Key|
                other != user ==> (#[trigger] self.with_position(user).position(other))
                    == self.position(other),
    {
        let next = self.with_position(user);
        let n = self.positions.len() as int;
        lemma_total_owned_push(self.positions, next.positions[n]);
        assert(next.positions_fit()) by {
            assert forall|p: int| 0 <= p < next.positions.len() implies (
            #[trigger] next.positions[p]).escrow_ref == next.escrow_ref by {
                if p < n {
                    assert(self.positions[p].escrow_ref == self.escrow_ref);
                }
            }
        }
        assert(next.positions_are_distinct()) by {
            assert forall|p: int, q: int| 0 <= p < q < next.positions.len() implies (
            #[trigger] next.positions[p]).user != (#[trigger] next.positions[q]).user by {
                if q == n {
                    assert(self.positions[p].user != user);
                } else {
                    assert(self.positions[p].user != self.positions[q].user);
                }
            }
        }
        assert(next.bids_have_windows()) by {
            assert forall|k: int| 0 <= k < next.bids.len() implies #[trigger] next.bid_has_window(
                k,
            ) by {
                assert(self.bid_has_window(k));
                let j = choose|j: int|
                    0 <= j < self.windows.len() && #[trigger] window_covers(
                        self.windows[j],
                        self.bids[k],
                    );
                assert(window_covers(next.windows[j], next.bids[k]));
            }
        }
        assert(next.leaders_are_backed()) by {
            assert forall|j: int|
                0 <= j < next.windows.len() && !(#[trigger] next.windows[j]).settled
                    && next.windows[j].highest is Some implies next.leader_is_backed(j) by {
                assert(self.leader_is_backed(j));
                let k = choose|k: int|
                    0 <= k < self.bids.len() && #[trigger] bid_backs(self.bids[k], self.windows[j]);
                assert(bid_backs(next.bids[k], next.windows[j]));
            }
        }
        assert(next.winners_are_paid_out()) by {
            assert forall|j: int, k: int|
                0 <= j < next.windows.len() && 0 <= k < next.bids.len() && (
                #[trigger] next.windows[j]).settled && next.windows[j].highest is Some implies !((
            #[trigger] next.bids[k]).window_ref.window_index == next.windows[j].window_index
                && next.bids[k].bidder == next.windows[j].highest->Some_0.bidder) by {
                assert(self.windows[j].settled);
                assert(self.bids[k] == next.bids[k]);
            }
        }
        next.lemma_position_slot(n);
        assert forall|other: Key| other != user implies (#[trigger] next.position(other))
            == self.position(other) by {
            if self.holds_position(other) {
                let q = self.position_slot(other);
                assert(next.positions[q] == self.positions[q]);
                next.lemma_position_slot(q);
            } else if next.holds_position(other) {
                let q = next.position_slot(other);
                assert(q != n);
                assert(self.positions[q].user == other);
            }
        }
    }

    /// Why the position of `user` can neither be found nor made, or `None`
    /// where it can: a position on record is found whatever the state of the
    /// escrow; a new one is made only while the escrow is locked
    /// (`EscrowClosed`).
    pub open spec fn upsert_verdict(self, user: Key) -> Option<ErrorCode> {
        if self.holds_position(user) {
            None
        } else {
            self.position_verdict(user)
        }
    }

    /// The state with a position of `user` on record: unchanged where it is
    /// already, and with a new position that owns nothing where it is not.
    pub open spec fn with_upserted_position(self, user: Key) -> AuctionState {
        if self.holds_position(user) {
            self
        } else {
            self.with_position(user)
        }
    }

    // ----- closing the escrow -----
    /// Why the escrow cannot be closed by `caller`, or `None` where it can.
    ///
    /// In this order: `EscrowClosed` where it is closed already;
    /// `NotDepositor` where `caller` is not the depositor; `NotSettled` while
    /// a window waits for its settlement; `AlreadySettled` where fractions
    /// have left the outstanding supply, which is to say that a window was
    /// settled with a winner.
    pub open spec fn close_verdict(self, caller: Key) -> Option<ErrorCode> {
        if self.escrow.status == EscrowStatus::Closed {
            Some(ErrorCode::EscrowClosed)
        } else if caller != self.escrow.depositor {
            Some(ErrorCode::NotDepositor)
        } else if self.has_unsettled_window() {
            Some(ErrorCode::NotSettled)
        } else if self.escrow.outstanding_fractions != self.escrow.total_fractions {
            Some(ErrorCode::AlreadySettled)
        } else {
            None
        }
    }

    /// The state after the escrow was closed: the escrow is closed, and no
    /// window and no bid is left on record.
    pub open spec fn after_close(self) -> AuctionState {
        AuctionState {
            escrow: Escrow { status: EscrowStatus::Closed, ..self.escrow },
            windows: Seq::empty(),
            bids: Seq::empty(),
            ..self
        }
    }

    /// The ledger operations that close the escrow: the whole supply goes
    /// from the fraction custody to the depositor, and the asset is handed back.
    pub open spec fn close_ops(self) -> Seq<LedgerOp> {
        seq![
            LedgerOp::CreditFractions {
                mint_ref: self.escrow.fraction_mint_ref,
                from_custody: self.escrow_ref,
                recipient: self.escrow.depositor,
                amount: self.escrow.total_fractions,
            },
            LedgerOp::ReleaseAsset {
                depositor: self.escrow.depositor,
                asset_ref: self.escrow.asset_ref,
            },
        ]
    }

    /// Closing keeps the invariant and orphans nothing: where an escrow can
    /// be closed, no bid is on record, no window has a bid, no user owns a
    /// fraction, and the whole supply is outstanding.
    pub proof fn lemma_after_close_wf(self, caller: Key)
        requires
            self.wf(),
            self.close_verdict(caller) is None,
        ensures
            self.after_close().wf(),
            self.bids.len() == 0,
            forall|i: int|
                0 <= i < self.windows.len() ==> (#[trigger] self.windows[i]).settled
                    && self.windows[i].highest is None,
            forall|p: int|
                0 <= p < self.positions.len() ==> (#[trigger] self.positions[p]).fractions_owned
                    == 0,
            self.escrow.outstanding_fractions == self.escrow.total_fractions,
    {
        let next = self.after_close();
        assert forall|i: int| 0 <= i < self.windows.len() implies (
        #[trigger] self.windows[i]).settled && self.windows[i].highest is None by {
            if i < self.windows.len() - 1 {
                assert(self.windows[i].settled);
            }
        }
        if self.bids.len() > 0 {
            assert(self.bid_has_window(0));
            let j = choose|j: int|
                0 <= j < self.windows.len() && #[trigger] window_covers(
                    self.windows[j],
                    self.bids[0],
                );
            assert(self.windows[j].highest is None);
        }
        lemma_total_owned_zero(self.positions);
        assert(total_owned(next.positions) == total_owned(self.positions));
    }
}

} // verus!
