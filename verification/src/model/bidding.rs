//! Opening a window and placing a bid.

use vstd::prelude::*;
use crate::error::ErrorCode;
use crate::key::Key;
use crate::ledger::{Holder, LedgerOp};
use crate::model::{bid_backs, window_covers, AuctionState};
use crate::schedule::{
    lemma_current_window_is_open, spec_window_closes_at, spec_window_index, spec_window_opens_at,
};
use crate::state::auction::{AuctionWindow, Bid, HighestBid};
use crate::state::escrow::EscrowStatus;

verus! {

impl AuctionState {
    // ----- opening a window -----
    /// The index of the window that holds the time `now`.
    pub open spec fn current_index(self, now: i64) -> int {
        spec_window_index(
            self.escrow.genesis_time as int,
            self.escrow.window_length as int,
            now as int,
        )
    }

    /// The first second after the window with this index.
    pub open spec fn closing_time(self, index: u64) -> int {
        spec_window_closes_at(
            self.escrow.genesis_time as int,
            self.escrow.window_length as int,
            index as int,
        )
    }

    /// The record of the window with this index as it is when it opens: with
    /// the times of the schedule, the escrow's offer per window and no bid.
    pub open spec fn fresh_window(self, index: u64) -> AuctionWindow {
        AuctionWindow {
            escrow_ref: self.escrow_ref,
            window_index: index,
            opens_at: spec_window_opens_at(
                self.escrow.genesis_time as int,
                self.escrow.window_length as int,
                index as int,
            ) as i64,
            closes_at: self.closing_time(index) as i64,
            fractions_on_offer: self.escrow.fractions_per_window,
            highest: None,
            settled: false,
        }
    }

    /// Why no record can be made at the time `now` for the window with this
    /// index, or `None` where one can.
    ///
    /// In this order: `ClockSkew` before the genesis time; `WindowNotOpen`
    /// where the window is not the one that holds `now`, or a later window is
    /// on record; `InvalidParams` where its closing time is beyond the clock's
    /// range; `NotSettled` while an earlier window waits for its settlement;
    /// `Exhausted` where fewer fractions are outstanding than a window offers.
    pub open spec fn opening_verdict(self, index: u64, now: i64) -> Option<ErrorCode> {
        if now < self.escrow.genesis_time {
            Some(ErrorCode::ClockSkew)
        } else if self.current_index(now) != index {
            Some(ErrorCode::WindowNotOpen)
        } else if self.windows.len() > 0 && self.windows.last().window_index > index {
            Some(ErrorCode::WindowNotOpen)
        } else if self.closing_time(index) > i64::MAX {
            Some(ErrorCode::InvalidParams)
        } else if self.has_unsettled_window() {
            Some(ErrorCode::NotSettled)
        } else if self.escrow.outstanding_fractions < self.escrow.fractions_per_window {
            Some(ErrorCode::Exhausted)
        } else {
            None
        }
    }

    /// Why the window with this index can neither be found nor opened at the
    /// time `now`, or `None` where it can: a window on record is found at any
    /// time; for another the escrow must be locked (`EscrowClosed`) and
    /// `opening_verdict` must allow the new record.
    pub open spec fn window_verdict(self, index: u64, now: i64) -> Option<ErrorCode> {
        if self.holds_window(index) {
            None
        } else if self.escrow.status == EscrowStatus::Closed {
            Some(ErrorCode::EscrowClosed)
        } else {
            self.opening_verdict(index, now)
        }
    }

    /// The state with the window with this index on record: unchanged where
    /// it is already, and with the fresh window as the newest where it is not.
    pub open spec fn with_window(self, index: u64) -> AuctionState {
        if self.holds_window(index) {
            self
        } else {
            AuctionState { windows: self.windows.push(self.fresh_window(index)), ..self }
        }
    }

    // ----- placing a bid -----
    /// Why the bid is refused, or `None` where it is accepted.
    ///
    /// In this order: `EscrowClosed`; `ClockSkew` before the genesis time;
    /// `WindowNotOpen` where the window is not the one that holds `now`, or
    /// has been settled; `BidTooLow` where the window has a leading bid and
    /// the amount does not exceed it; and for a window that is not on record
    /// yet, the error that keeps it from opening.
    pub open spec fn bid_verdict(self, index: u64, bidder: Key, amount: u64, now: i64) -> Option<
        ErrorCode,
    > {
        if self.escrow.status == EscrowStatus::Closed {
            Some(ErrorCode::EscrowClosed)
        } else if now < self.escrow.genesis_time {
            Some(ErrorCode::ClockSkew)
        } else if self.current_index(now) != index {
            Some(ErrorCode::WindowNotOpen)
        } else if self.holds_window(index) {
            let window = self.windows[self.window_slot(index)];
            if window.settled {
                Some(ErrorCode::WindowNotOpen)
            } else if window.highest matches Some(h) && amount <= h.amount {
                Some(ErrorCode::BidTooLow)
            } else {
                None
            }
        } else {
            self.opening_verdict(index, now)
        }
    }

    /// The bid record of `bidder` after a bid of `amount`: the custody is
    /// topped up to the amount and never reduced.
    pub open spec fn raised_bid(self, index: u64, bidder: Key, amount: u64) -> Bid {
        let held = self.custody(index, bidder);
        Bid {
            window_ref: self.window_ref(index),
            bidder,
            amount,
            custodied_balance: if held > amount {
                held
            } else {
                amount
            },
        }
    }

    /// The state in which `bidder` leads the window with this index, which is
    /// on record, with a bid of `amount`.
    pub open spec fn with_bid(self, index: u64, bidder: Key, amount: u64) -> AuctionState {
        let i = self.window_slot(index);
        let window = AuctionWindow {
            highest: Some(HighestBid { bidder, amount }),
            ..self.windows[i]
        };
        let bid = self.raised_bid(index, bidder, amount);
        AuctionState {
            windows: self.windows.update(i, window),
            bids: if self.holds_bid(index, bidder) {
                self.bids.update(self.bid_slot(index, bidder), bid)
            } else {
                self.bids.push(bid)
            },
            ..self
        }
    }

    /// The state after an accepted bid: the window is on record, `bidder`
    /// leads it with `amount`, and the bid record of `bidder` holds the amount.
    pub open spec fn after_bid(self, index: u64, bidder: Key, amount: u64) -> AuctionState {
        self.with_window(index).with_bid(index, bidder, amount)
    }

    /// The ledger operations of an accepted bid: one transfer from the bidder
    /// to the custody of the window, of what the amount exceeds the funds
    /// that the custody holds of the bidder already; none where it does not.
    pub open spec fn bid_ops(self, index: u64, bidder: Key, amount: u64) -> Seq<LedgerOp> {
        let held = self.custody(index, bidder);
        if amount > held {
            seq![
                LedgerOp::TransferValue {
                    from: Holder::Party(bidder),
                    to: Holder::Custody(self.window_ref(index)),
                    amount: (amount - held) as u64,
                },
            ]
        } else {
            Seq::empty()
        }
    }

    // ----- what opening keeps -----
    /// Opening a window keeps the invariant, and the window is then on record
    /// as the newest, unsettled and without a bid.
    pub proof fn lemma_with_window_wf(self, index: u64, now: i64)
        requires
            self.wf(),
            self.window_verdict(index, now) is None,
        ensures
            self.with_window(index).wf(),
            self.with_window(index).holds_window(index),
            self.with_window(index).escrow == self.escrow,
            self.with_window(index).bids == self.bids,
            self.with_window(index).positions == self.positions,
            !self.holds_window(index) ==> self.with_window(index).window(index) == Some(
                self.fresh_window(index),
            ) && self.with_window(index).window_slot(index) == self.windows.len()
                && self.opening_verdict(index, now) is None,
            self.holds_window(index) ==> self.with_window(index) == self,
    {
        if !self.holds_window(index) {
            let next = self.with_window(index);
            let fresh = self.fresh_window(index);
            let n = self.windows.len() as int;
            lemma_current_window_is_open(
                self.escrow.genesis_time as int,
                self.escrow.window_length as int,
                now as int,
            );
            assert(index as int * self.escrow.window_length as int >= 0) by (nonlinear_arith)
                requires
                    index as int >= 0,
                    self.escrow.window_length as int >= 0,
            ;
            assert(self.window_fits(fresh));
            assert(next.windows[n] == fresh);
            assert(next.windows_fit()) by {
                assert forall|i: int| 0 <= i < next.windows.len() implies next.window_fits(
                    #[trigger] next.windows[i],
                ) by {
                    if i < n {
                        assert(self.window_fits(self.windows[i]));
                    }
                }
            }
            assert(forall|i: int|
                0 <= i < n ==> (#[trigger] self.windows[i]).window_index < index) by {
                assert forall|i: int| 0 <= i < n implies (
                #[trigger] self.windows[i]).window_index < index by {
                    self.lemma_newest_has_largest_index(i);
                    assert(self.windows[n - 1].window_index != index);
                    if i < n - 1 {
                        assert(self.windows[i].window_index < self.windows[n - 1].window_index);
                    }
                }
            }
            assert(next.windows_ascend()) by {
                assert forall|i: int, j: int| 0 <= i < j < next.windows.len() implies (
                #[trigger] next.windows[i]).window_index < (
                #[trigger] next.windows[j]).window_index by {
                    assert(next.windows[i] == self.windows[i]);
                    if j < n {
                        assert(next.windows[j] == self.windows[j]);
                    }
                }
            }
            assert(next.only_newest_unsettled()) by {
                assert forall|i: int| 0 <= i < next.windows.len() - 1 implies (
                #[trigger] next.windows[i]).settled by {
                    assert(next.windows[i] == self.windows[i]);
                    if i < n - 1 {
                        assert(self.windows[i].settled);
                    }
                }
            }
            assert(next.bids_have_windows()) by {
                assert forall|k: int| 0 <= k < next.bids.len() implies #[trigger] next.bid_has_window(
                    k,
                ) by {
                    assert(self.bid_has_window(k));
                    let i = choose|i: int|
                        0 <= i < self.windows.len() && #[trigger] window_covers(
                            self.windows[i],
                            self.bids[k],
                        );
                    assert(next.windows[i] == self.windows[i]);
                    assert(window_covers(next.windows[i], next.bids[k]));
                }
            }
            assert(next.leaders_are_backed()) by {
                assert forall|i: int|
                    0 <= i < next.windows.len() && !(#[trigger] next.windows[i]).settled
                        && next.windows[i].highest is Some implies next.leader_is_backed(i) by {
                    assert(i < n);
                    assert(next.windows[i] == self.windows[i]);
                    assert(self.leader_is_backed(i));
                    let k = choose|k: int|
                        0 <= k < self.bids.len() && #[trigger] bid_backs(
                            self.bids[k],
                            self.windows[i],
                        );
                    assert(bid_backs(next.bids[k], next.windows[i]));
                }
            }
            assert(next.winners_reduce_supply()) by {
                assert forall|i: int|
                    0 <= i < next.windows.len() && (#[trigger] next.windows[i]).settled
                        && next.windows[i].highest is Some implies self.escrow.outstanding_fractions
                    < self.escrow.total_fractions by {
                    assert(next.windows[i] == self.windows[i]);
                }
            }
            assert(next.winners_are_paid_out()) by {
                assert forall|i: int, k: int|
                    0 <= i < next.windows.len() && 0 <= k < next.bids.len() && (
                    #[trigger] next.windows[i]).settled && next.windows[i].highest is Some implies !((
                #[trigger] next.bids[k]).window_ref.window_index == next.windows[i].window_index
                    && next.bids[k].bidder == next.windows[i].highest->Some_0.bidder) by {
                    assert(next.windows[i] == self.windows[i]);
                    assert(self.bids[k] == next.bids[k]);
                }
            }
            next.lemma_window_slot(n);
        }
    }

    // ----- what a bid keeps -----
    /// A bid that exceeds the leading bid of an unsettled window on record
    /// keeps the invariant.
    pub proof fn lemma_with_bid_wf(self, index: u64, bidder: Key, amount: u64)
        requires
            self.wf(),
            self.escrow.status == EscrowStatus::Locked,
            self.holds_window(index),
            !self.windows[self.window_slot(index)].settled,
            self.windows[self.window_slot(index)].highest matches Some(h) ==> amount > h.amount,
        ensures
            self.with_bid(index, bidder, amount).wf(),
    {
        let next = self.with_bid(index, bidder, amount);
        let i = self.window_slot(index);
        let window = next.windows[i];
        let bid = self.raised_bid(index, bidder, amount);
        assert(0 <= i < self.windows.len() && self.windows[i].window_index == index);
        assert(self.window_fits(self.windows[i]));
        // Where the new bid record stands.
        let at = if self.holds_bid(index, bidder) {
            self.bid_slot(index, bidder)
        } else {
            self.bids.len() as int
        };
        assert(0 <= at < next.bids.len() && next.bids[at] == bid);
        assert(forall|k: int| 0 <= k < next.bids.len() && k != at ==> next.bids[k] == self.bids[k]);
        assert(forall|j: int|
            0 <= j < next.windows.len() && j != i ==> next.windows[j] == self.windows[j]);
        assert(next.windows_fit()) by {
            assert forall|j: int| 0 <= j < next.windows.len() implies next.window_fits(
                #[trigger] next.windows[j],
            ) by {
                assert(self.window_fits(self.windows[j]));
            }
        }
        assert(next.windows_ascend()) by {
            assert forall|a: int, b: int| 0 <= a < b < next.windows.len() implies (
            #[trigger] next.windows[a]).window_index < (#[trigger] next.windows[b]).window_index by {
                assert(self.windows[a].window_index < self.windows[b].window_index);
            }
        }
        assert(next.only_newest_unsettled()) by {
            assert forall|j: int| 0 <= j < next.windows.len() - 1 implies (
            #[trigger] next.windows[j]).settled by {
                assert(self.windows[j].settled);
            }
        }
        assert(next.has_unsettled_window() == self.has_unsettled_window());
        assert(next.bids_fit()) by {
            assert forall|k: int| 0 <= k < next.bids.len() implies (
            #[trigger] next.bids[k]).window_ref.escrow == next.escrow_ref
                && next.bids[k].custodied_balance >= next.bids[k].amount by {
                if k != at {
                    assert(self.bids[k].window_ref.escrow == self.escrow_ref);
                }
            }
        }
        assert(next.bids_have_windows()) by {
            assert forall|k: int| 0 <= k < next.bids.len() implies #[trigger] next.bid_has_window(
                k,
            ) by {
                if k == at {
                    assert(window_covers(next.windows[i], next.bids[k]));
                } else {
                    assert(self.bid_has_window(k));
                    let j = choose|j: int|
                        0 <= j < self.windows.len() && #[trigger] window_covers(
                            self.windows[j],
                            self.bids[k],
                        );
                    assert(window_covers(next.windows[j], next.bids[k]));
                }
            }
        }
        assert(next.bids_are_distinct()) by {
            assert forall|k: int, l: int| 0 <= k < l < next.bids.len() implies !((
            #[trigger] next.bids[k]).window_ref.window_index == (
            #[trigger] next.bids[l]).window_ref.window_index && next.bids[k].bidder
                == next.bids[l].bidder) by {
                if self.holds_bid(index, bidder) {
                    assert(self.bids[at].window_ref.window_index == index && self.bids[at].bidder
                        == bidder);
                    assert(!(self.bids[k].window_ref.window_index
                        == self.bids[l].window_ref.window_index && self.bids[k].bidder
                        == self.bids[l].bidder));
                } else if l == at {
                    assert(!(self.bids[k].window_ref.window_index == index && self.bids[k].bidder
                        == bidder));
                } else {
                    assert(!(self.bids[k].window_ref.window_index
                        == self.bids[l].window_ref.window_index && self.bids[k].bidder
                        == self.bids[l].bidder));
                }
            }
        }
        assert(next.leaders_are_backed()) by {
            assert forall|j: int|
                0 <= j < next.windows.len() && !(#[trigger] next.windows[j]).settled
                    && next.windows[j].highest is Some implies next.leader_is_backed(j) by {
                if j == i {
                    assert(bid_backs(next.bids[at], next.windows[j]));
                } else {
                    assert(self.leader_is_backed(j));
                    let k = choose|k: int|
                        0 <= k < self.bids.len() && #[trigger] bid_backs(
                            self.bids[k],
                            self.windows[j],
                        );
                    if j < i {
                        assert(self.windows[j].window_index < self.windows[i].window_index);
                    } else {
                        assert(self.windows[i].window_index < self.windows[j].window_index);
                    }
                    assert(k != at);
                    assert(bid_backs(next.bids[k], next.windows[j]));
                }
            }
        }
        assert(next.winners_reduce_supply()) by {
            assert forall|j: int|
                0 <= j < next.windows.len() && (#[trigger] next.windows[j]).settled
                    && next.windows[j].highest is Some implies next.escrow.outstanding_fractions
                < next.escrow.total_fractions by {
                assert(self.windows[j].settled && self.windows[j].highest is Some);
            }
        }
        assert(next.winners_are_paid_out()) by {
            assert forall|j: int, k: int|
                0 <= j < next.windows.len() && 0 <= k < next.bids.len() && (
                #[trigger] next.windows[j]).settled && next.windows[j].highest is Some implies !((
            #[trigger] next.bids[k]).window_ref.window_index == next.windows[j].window_index
                && next.bids[k].bidder == next.windows[j].highest->Some_0.bidder) by {
                assert(next.windows[j] == self.windows[j]);
                if k == at {
                    if j < i {
                        assert(self.windows[j].window_index < self.windows[i].window_index);
                    } else {
                        assert(self.windows[i].window_index < self.windows[j].window_index);
                    }
                } else {
                    assert(next.bids[k] == self.bids[k]);
                }
            }
        }
    }

    /// An accepted bid keeps the invariant.
    pub proof fn lemma_after_bid_wf(self, index: u64, bidder: Key, amount: u64, now: i64)
        requires
            self.wf(),
            self.bid_verdict(index, bidder, amount, now) is None,
        ensures
            self.after_bid(index, bidder, amount).wf(),
            self.window_verdict(index, now) is None,
    {
        self.lemma_with_window_wf(index, now);
        let opened = self.with_window(index);
        if !self.holds_window(index) {
            assert(opened.windows[opened.window_slot(index)] == self.fresh_window(index));
        }
        opened.lemma_with_bid_wf(index, bidder, amount);
    }
}

} // verus!
