//! Settling a window and reclaiming a losing bid.

use vstd::prelude::*;
use crate::error::ErrorCode;
use crate::key::Key;
use crate::ledger::{Holder, LedgerOp};
use crate::model::{bid_backs, window_covers, AuctionState};
use crate::state::auction::AuctionWindow;
use crate::state::escrow::{Escrow, EscrowStatus};
use crate::state::user_position::{
    lemma_total_owned_bounds, lemma_total_owned_push, lemma_total_owned_update, total_owned,
    UserPosition,
};

verus! {

/// What a sequence holds after the item in place `k` has left it.
pub proof fn lemma_remove_shifts<A>(items: Seq<A>, k: int)
    requires
        0 <= k < items.len(),
    ensures
        items.remove(k).len() == items.len() - 1,
        forall|j: int| 0 <= j < k ==> #[trigger] items.remove(k)[j] == items[j],
        forall|j: int| k <= j < items.len() - 1 ==> #[trigger] items.remove(k)[j] == items[j + 1],
{
}

impl AuctionState {
    // ----- settling -----
    /// Why the settlement is refused, or `None` where it is accepted.
    ///
    /// In this order: `EscrowClosed`; `AlreadySettled` where the window has
    /// been settled; `ClockSkew` before the genesis time; `WindowNotClosed`
    /// before the closing time of the window; `NoBidsToSettle` where the
    /// window is not on record, so that no bid was ever placed into it.
    pub open spec fn settle_verdict(self, index: u64, now: i64) -> Option<ErrorCode> {
        if self.escrow.status == EscrowStatus::Closed {
            Some(ErrorCode::EscrowClosed)
        } else if self.holds_window(index) && self.windows[self.window_slot(index)].settled {
            Some(ErrorCode::AlreadySettled)
        } else if now < self.escrow.genesis_time {
            Some(ErrorCode::ClockSkew)
        } else if self.closing_time(index) > now {
            Some(ErrorCode::WindowNotClosed)
        } else if !self.holds_window(index) {
            Some(ErrorCode::NoBidsToSettle)
        } else {
            None
        }
    }

    /// The positions after `amount` fractions were credited to `user`: the
    /// position of `user` holds that much more, and is made where there was none.
    pub open spec fn credited(self, user: Key, amount: u64) -> Seq<UserPosition> {
        if self.holds_position(user) {
            let p = self.position_slot(user);
            self.positions.update(
                p,
                UserPosition {
                    fractions_owned: (self.positions[p].fractions_owned + amount) as u64,
                    ..self.positions[p]
                },
            )
        } else {
            self.positions.push(
                UserPosition { escrow_ref: self.escrow_ref, user, fractions_owned: amount },
            )
        }
    }

    /// The state after the settlement of the window with this index, which is
    /// on record.
    ///
    /// The window is settled. Where it has no bid, nothing else changes. Where
    /// it has a leading bid, the fractions on offer leave the outstanding
    /// supply and are credited to the position of the leader, and the bid
    /// record of the leader is gone.
    pub open spec fn after_settle(self, index: u64) -> AuctionState {
        let i = self.window_slot(index);
        let window = self.windows[i];
        let windows = self.windows.update(i, AuctionWindow { settled: true, ..window });
        match window.highest {
            None => AuctionState { windows, ..self },
            Some(h) => AuctionState {
                escrow_ref: self.escrow_ref,
                escrow: Escrow {
                    outstanding_fractions: (self.escrow.outstanding_fractions
                        - window.fractions_on_offer) as u64,
                    ..self.escrow
                },
                windows,
                bids: self.bids.remove(self.bid_slot(index, h.bidder)),
                positions: self.credited(h.bidder, window.fractions_on_offer),
            },
        }
    }

    /// The ledger operations of the settlement of the window with this index.
    ///
    /// None where the window has no bid. Where it has a leading bid: the
    /// amount of that bid goes from the custody of the window to the
    /// depositor, the fractions on offer go from the fraction custody to the
    /// leader, and what the custody holds of the leader beyond the amount
    /// goes back to the leader, where it holds anything beyond.
    pub open spec fn settle_ops(self, index: u64) -> Seq<LedgerOp> {
        let window = self.windows[self.window_slot(index)];
        match window.highest {
            None => Seq::empty(),
            Some(h) => {
                let custody = Holder::Custody(self.window_ref(index));
                let held = self.custody(index, h.bidder);
                let payout = seq![
                    LedgerOp::TransferValue {
                        from: custody,
                        to: Holder::Party(self.escrow.depositor),
                        amount: h.amount,
                    },
                    LedgerOp::CreditFractions {
                        mint_ref: self.escrow.fraction_mint_ref,
                        from_custody: self.escrow_ref,
                        recipient: h.bidder,
                        amount: window.fractions_on_offer,
                    },
                ];
                if held > h.amount {
                    payout.push(
                        LedgerOp::TransferValue {
                            from: custody,
                            to: Holder::Party(h.bidder),
                            amount: (held - h.amount) as u64,
                        },
                    )
                } else {
                    payout
                }
            },
        }
    }

    /// Crediting fractions that are outstanding keeps the positions apart,
    /// adds the fractions to the sum, and changes the position of no other user.
    pub proof fn lemma_credited(self, user: Key, amount: u64)
        requires
            self.wf(),
            amount <= self.escrow.outstanding_fractions,
        ensures
            total_owned(self.credited(user, amount)) == total_owned(self.positions) + amount,
            (AuctionState { positions: self.credited(user, amount), ..self }).positions_fit(),
            (AuctionState { positions: self.credited(user, amount), ..self }).positions_are_distinct(),
            (AuctionState { positions: self.credited(user, amount), ..self }).owned(user)
                == self.owned(user) + amount,
            forall|other: Key|
                other != user ==> (#[trigger] (AuctionState {
                    positions: self.credited(user, amount),
                    ..self
                }).position(other)) == self.position(other),
    {
        let next = AuctionState { positions: self.credited(user, amount), ..self };
        let at = if self.holds_position(user) {
            self.position_slot(user)
        } else {
            self.positions.len() as int
        };
        if self.holds_position(user) {
            lemma_total_owned_bounds(self.positions, at);
            lemma_total_owned_update(self.positions, at, next.positions[at]);
        } else {
            lemma_total_owned_push(self.positions, next.positions[at]);
        }
        assert(0 <= at < next.positions.len() && next.positions[at].user == user);
        assert(forall|p: int|
            0 <= p < next.positions.len() && p != at ==> next.positions[p] == self.positions[p]);
        assert(next.positions_fit()) by {
            assert forall|p: int| 0 <= p < next.positions.len() implies (
            #[trigger] next.positions[p]).escrow_ref == next.escrow_ref by {
                if p < self.positions.len() {
                    assert(self.positions[p].escrow_ref == self.escrow_ref);
                }
            }
        }
        assert(next.positions_are_distinct()) by {
            assert forall|p: int, q: int| 0 <= p < q < next.positions.len() implies (
            #[trigger] next.positions[p]).user != (#[trigger] next.positions[q]).user by {
                if self.holds_position(user) {
                    assert(self.positions[p].user != self.positions[q].user);
                } else if q == at {
                    assert(self.positions[p].user != user);
                } else {
                    assert(self.positions[p].user != self.positions[q].user);
                }
            }
        }
        next.lemma_position_slot(at);
        assert forall|other: Key| other != user implies (#[trigger] next.position(other))
            == self.position(other) by {
            if self.holds_position(other) {
                let q = self.position_slot(other);
                assert(next.positions[q] == self.positions[q]);
                next.lemma_position_slot(q);
            } else if next.holds_position(other) {
                let q = next.position_slot(other);
                assert(q != at);
                assert(self.positions[q].user == other);
            }
        }
    }

    /// Taking a bid record away keeps the bids in order: the bid is gone,
    /// and every other bid is as it was.
    pub proof fn lemma_bid_removed(self, k: int)
        requires
            self.bids_fit(),
            self.bids_are_distinct(),
            0 <= k < self.bids.len(),
        ensures
            (AuctionState { bids: self.bids.remove(k), ..self }).bids_fit(),
            (AuctionState { bids: self.bids.remove(k), ..self }).bids_are_distinct(),
            !(AuctionState { bids: self.bids.remove(k), ..self }).holds_bid(
                self.bids[k].window_ref.window_index,
                self.bids[k].bidder,
            ),
            forall|index: u64, bidder: Key|
                !(index == self.bids[k].window_ref.window_index && bidder == self.bids[k].bidder)
                    ==> (#[trigger] (AuctionState { bids: self.bids.remove(k), ..self }).bid(
                    index,
                    bidder,
                )) == self.bid(index, bidder),
    {
        let next = AuctionState { bids: self.bids.remove(k), ..self };
        lemma_remove_shifts(self.bids, k);
        assert(next.bids_fit()) by {
            assert forall|l: int| 0 <= l < next.bids.len() implies (
            #[trigger] next.bids[l]).window_ref.escrow == next.escrow_ref
                && next.bids[l].custodied_balance >= next.bids[l].amount by {
                let o = if l < k {
                    l
                } else {
                    l + 1
                };
                assert(next.bids[l] == self.bids[o]);
            }
        }
        assert(next.bids_are_distinct()) by {
            assert forall|a: int, b: int| 0 <= a < b < next.bids.len() implies !((
            #[trigger] next.bids[a]).window_ref.window_index == (
            #[trigger] next.bids[b]).window_ref.window_index && next.bids[a].bidder
                == next.bids[b].bidder) by {
                let oa = if a < k {
                    a
                } else {
                    a + 1
                };
                let ob = if b < k {
                    b
                } else {
                    b + 1
                };
                assert(next.bids[a] == self.bids[oa]);
                assert(next.bids[b] == self.bids[ob]);
                assert(!(self.bids[oa].window_ref.window_index
                    == self.bids[ob].window_ref.window_index && self.bids[oa].bidder
                    == self.bids[ob].bidder));
            }
        }
        if next.holds_bid(self.bids[k].window_ref.window_index, self.bids[k].bidder) {
            let l = next.bid_slot(self.bids[k].window_ref.window_index, self.bids[k].bidder);
            let o = if l < k {
                l
            } else {
                l + 1
            };
            assert(next.bids[l] == self.bids[o]);
            if o < k {
                assert(!(self.bids[o].window_ref.window_index
                    == self.bids[k].window_ref.window_index && self.bids[o].bidder
                    == self.bids[k].bidder));
            } else {
                assert(!(self.bids[k].window_ref.window_index
                    == self.bids[o].window_ref.window_index && self.bids[k].bidder
                    == self.bids[o].bidder));
            }
        }
        assert forall|index: u64, bidder: Key|
            !(index == self.bids[k].window_ref.window_index && bidder
                == self.bids[k].bidder) implies (#[trigger] next.bid(index, bidder)) == self.bid(
            index,
            bidder,
        ) by {
            if self.holds_bid(index, bidder) {
                let o = self.bid_slot(index, bidder);
                let l = if o < k {
                    o
                } else {
                    o - 1
                };
                assert(next.bids[l] == self.bids[o]);
                next.lemma_bid_slot(l);
            } else if next.holds_bid(index, bidder) {
                let l = next.bid_slot(index, bidder);
                let o = if l < k {
                    l
                } else {
                    l + 1
                };
                assert(next.bids[l] == self.bids[o]);
                assert(self.bids[o].window_ref.window_index == index && self.bids[o].bidder
                    == bidder);
            }
        }
    }

    /// The bid that backs the leader of an unsettled window is the bid record
    /// of the leader in that window.
    pub proof fn lemma_leader_bid(self, index: u64)
        requires
            self.wf(),
            self.holds_window(index),
            !self.windows[self.window_slot(index)].settled,
            self.windows[self.window_slot(index)].highest is Some,
        ensures
            self.holds_bid(index, self.windows[self.window_slot(index)].highest->Some_0.bidder),
            0 <= self.bid_slot(index, self.windows[self.window_slot(index)].highest->Some_0.bidder)
                < self.bids.len(),
            bid_backs(
                self.bids[self.bid_slot(
                    index,
                    self.windows[self.window_slot(index)].highest->Some_0.bidder,
                )],
                self.windows[self.window_slot(index)],
            ),
    {
        let i = self.window_slot(index);
        assert(0 <= i < self.windows.len() && self.windows[i].window_index == index);
        assert(self.leader_is_backed(i));
        let k = choose|k: int|
            0 <= k < self.bids.len() && #[trigger] bid_backs(self.bids[k], self.windows[i]);
        self.lemma_bid_slot(k);
    }

    /// An unsettled window is the newest, and every other window is settled.
    pub proof fn lemma_unsettled_is_newest(self, index: u64)
        requires
            self.wf(),
            self.holds_window(index),
            !self.windows[self.window_slot(index)].settled,
        ensures
            self.window_slot(index) == self.windows.len() - 1,
            self.has_unsettled_window(),
            self.escrow.outstanding_fractions >= self.escrow.fractions_per_window,
            self.windows[self.window_slot(index)].fractions_on_offer
                == self.escrow.fractions_per_window,
            forall|j: int|
                0 <= j < self.windows.len() && j != self.window_slot(index) ==> (
                #[trigger] self.windows[j]).settled,
    {
        let i = self.window_slot(index);
        assert(0 <= i < self.windows.len() && self.windows[i].window_index == index);
        if i < self.windows.len() - 1 {
            assert(self.windows[i].settled);
        }
        assert(self.window_fits(self.windows[i]));
    }

    /// An accepted settlement keeps the invariant and settles the window.
    ///
    /// Without a leading bid nothing moves: the escrow, the bids and the
    /// positions stay as they are and no ledger operation is called for.
    /// With a leading bid the outstanding supply falls by the fractions on
    /// offer, the position of the leader rises by as much, no other position
    /// changes, the bid record of the leader is gone and every other bid
    /// stays, and the first ledger operation pays the amount of the leading
    /// bid to the depositor.
    pub proof fn lemma_after_settle_wf(self, index: u64, now: i64)
        requires
            self.wf(),
            self.settle_verdict(index, now) is None,
        ensures
            self.after_settle(index).wf(),
            self.after_settle(index).window(index) == Some(
                AuctionWindow { settled: true, ..self.window(index)->Some_0 },
            ),
            self.after_settle(index).windows.len() == self.windows.len(),
            !self.after_settle(index).has_unsettled_window(),
            self.window(index)->Some_0.highest is None ==> {
                &&& self.after_settle(index).escrow == self.escrow
                &&& self.after_settle(index).bids == self.bids
                &&& self.after_settle(index).positions == self.positions
                &&& self.settle_ops(index) == Seq::<LedgerOp>::empty()
            },
            self.window(index)->Some_0.highest matches Some(h) ==> {
                &&& self.after_settle(index).escrow.outstanding_fractions
                    == self.escrow.outstanding_fractions - self.window(
                    index,
                )->Some_0.fractions_on_offer
                &&& self.after_settle(index).owned(h.bidder) == self.owned(h.bidder) + self.window(
                    index,
                )->Some_0.fractions_on_offer
                &&& forall|other: Key|
                    other != h.bidder ==> (#[trigger] self.after_settle(index).position(other))
                        == self.position(other)
                &&& !self.after_settle(index).holds_bid(index, h.bidder)
                &&& self.after_settle(index).custody(index, h.bidder) == 0
                &&& forall|w: u64, bidder: Key|
                    !(w == index && bidder == h.bidder) ==> (#[trigger] self.after_settle(
                        index,
                    ).bid(w, bidder)) == self.bid(w, bidder)
                &&& self.custody(index, h.bidder) >= h.amount
                &&& self.settle_ops(index).len() >= 2
                &&& self.settle_ops(index)[0] == (LedgerOp::TransferValue {
                    from: Holder::Custody(self.window_ref(index)),
                    to: Holder::Party(self.escrow.depositor),
                    amount: h.amount,
                })
            },
    {
        let next = self.after_settle(index);
        let i = self.window_slot(index);
        let window = self.windows[i];
        assert(0 <= i < self.windows.len() && window.window_index == index);
        self.lemma_unsettled_is_newest(index);
        assert(next.windows[i] == (AuctionWindow { settled: true, ..window }));
        assert(forall|j: int|
            0 <= j < next.windows.len() && j != i ==> next.windows[j] == self.windows[j]);
        assert(next.windows_fit()) by {
            assert forall|j: int| 0 <= j < next.windows.len() implies next.window_fits(
                #[trigger] next.windows[j],
            ) by {
                assert(self.window_fits(self.windows[j]));
            }
        }
        assert(next.windows_ascend()) by {
            assert forall|a: int, b: int| 0 <= a < b < next.windows.len() implies (
            #[trigger] next.windows[a]).window_index < (#[trigger] next.windows[b]).window_index by {
                assert(self.windows[a].window_index < self.windows[b].window_index);
            }
        }
        assert(forall|j: int| 0 <= j < next.windows.len() ==> (#[trigger] next.windows[j]).settled)
            by {
            assert forall|j: int| 0 <= j < next.windows.len() implies (
            #[trigger] next.windows[j]).settled by {
                if j != i {
                    assert(self.windows[j].settled);
                }
            }
        }
        next.lemma_window_slot(i);
        match window.highest {
            None => {
                assert(next.bids_have_windows()) by {
                    assert forall|k: int| 0 <= k < next.bids.len() implies #[trigger] next.bid_has_window(
                    k) by {
                        assert(self.bid_has_window(k));
                        let j = choose|j: int|
                            0 <= j < self.windows.len() && #[trigger] window_covers(
                                self.windows[j],
                                self.bids[k],
                            );
                        assert(window_covers(next.windows[j], next.bids[k]));
                    }
                }
                assert(next.winners_reduce_supply()) by {
                    assert forall|j: int|
                        0 <= j < next.windows.len() && (#[trigger] next.windows[j]).settled
                            && next.windows[j].highest is Some implies next.escrow.outstanding_fractions
                        < next.escrow.total_fractions by {
                        assert(self.windows[j].settled && self.windows[j].highest is Some);
                    }
                }
                assert(next.winners_are_paid_out()) by {
                    assert forall|j: int, l: int|
                        0 <= j < next.windows.len() && 0 <= l < next.bids.len() && (
                        #[trigger] next.windows[j]).settled
                            && next.windows[j].highest is Some implies !((
                    #[trigger] next.bids[l]).window_ref.window_index
                        == next.windows[j].window_index && next.bids[l].bidder
                        == next.windows[j].highest->Some_0.bidder) by {
                        assert(self.windows[j].settled && self.windows[j].highest is Some);
                        assert(self.bids[l] == next.bids[l]);
                    }
                }
            },
            Some(h) => {
                self.lemma_leader_bid(index);
                let k = self.bid_slot(index, h.bidder);
                let offer = window.fractions_on_offer;
                assert(self.bids[k].custodied_balance >= self.bids[k].amount);
                self.lemma_credited(h.bidder, offer);
                self.lemma_bid_removed(k);
                lemma_remove_shifts(self.bids, k);
                let credited = AuctionState { positions: self.credited(h.bidder, offer), ..self };
                let removed = AuctionState { bids: self.bids.remove(k), ..self };
                assert(next.positions == credited.positions);
                assert(next.bids == removed.bids);
                assert(next.positions_fit()) by {
                    assert forall|p: int| 0 <= p < next.positions.len() implies (
                    #[trigger] next.positions[p]).escrow_ref == next.escrow_ref by {
                        assert(credited.positions[p].escrow_ref == credited.escrow_ref);
                    }
                }
                assert(next.positions_are_distinct()) by {
                    assert forall|p: int, q: int| 0 <= p < q < next.positions.len() implies (
                    #[trigger] next.positions[p]).user != (#[trigger] next.positions[q]).user by {
                        assert(credited.positions[p].user != credited.positions[q].user);
                    }
                }
                assert(next.bids_fit()) by {
                    assert forall|l: int| 0 <= l < next.bids.len() implies (
                    #[trigger] next.bids[l]).window_ref.escrow == next.escrow_ref
                        && next.bids[l].custodied_balance >= next.bids[l].amount by {
                        assert(removed.bids[l].window_ref.escrow == removed.escrow_ref);
                    }
                }
                assert(next.bids_are_distinct()) by {
                    assert forall|a: int, b: int| 0 <= a < b < next.bids.len() implies !((
                    #[trigger] next.bids[a]).window_ref.window_index == (
                    #[trigger] next.bids[b]).window_ref.window_index && next.bids[a].bidder
                        == next.bids[b].bidder) by {
                        assert(!(removed.bids[a].window_ref.window_index
                            == removed.bids[b].window_ref.window_index && removed.bids[a].bidder
                            == removed.bids[b].bidder));
                    }
                }
                assert(next.bids_have_windows()) by {
                    assert forall|l: int| 0 <= l < next.bids.len() implies #[trigger] next.bid_has_window(
                    l) by {
                        let o = if l < k {
                            l
                        } else {
                            l + 1
                        };
                        assert(next.bids[l] == self.bids[o]);
                        assert(self.bid_has_window(o));
                        let j = choose|j: int|
                            0 <= j < self.windows.len() && #[trigger] window_covers(
                                self.windows[j],
                                self.bids[o],
                            );
                        assert(window_covers(next.windows[j], next.bids[l]));
                    }
                }
                // The position and the bids, looked up by their keys.
                assert(next.owned(h.bidder) == credited.owned(h.bidder)) by {
                    assert(next.holds_position(h.bidder) == credited.holds_position(h.bidder));
                    assert(next.position_slot(h.bidder) == credited.position_slot(h.bidder));
                }
                assert forall|other: Key| other != h.bidder implies (#[trigger] next.position(
                    other,
                )) == self.position(other) by {
                    assert(next.holds_position(other) == credited.holds_position(other));
                    assert(next.position_slot(other) == credited.position_slot(other));
                    assert(next.position(other) == credited.position(other));
                }
                assert(!next.holds_bid(index, h.bidder)) by {
                    assert(next.holds_bid(index, h.bidder) == removed.holds_bid(index, h.bidder));
                }
                assert forall|w: u64, bidder: Key|
                    !(w == index && bidder == h.bidder) implies (#[trigger] next.bid(w, bidder))
                    == self.bid(w, bidder) by {
                    assert(next.holds_bid(w, bidder) == removed.holds_bid(w, bidder));
                    assert(next.bid_slot(w, bidder) == removed.bid_slot(w, bidder));
                    assert(next.bid(w, bidder) == removed.bid(w, bidder));
                }
                assert(next.winners_are_paid_out()) by {
                    assert forall|j: int, l: int|
                        0 <= j < next.windows.len() && 0 <= l < next.bids.len() && (
                        #[trigger] next.windows[j]).settled
                            && next.windows[j].highest is Some implies !((
                    #[trigger] next.bids[l]).window_ref.window_index
                        == next.windows[j].window_index && next.bids[l].bidder
                        == next.windows[j].highest->Some_0.bidder) by {
                        let o = if l < k {
                            l
                        } else {
                            l + 1
                        };
                        assert(next.bids[l] == self.bids[o]);
                        if j == i {
                            if o < k {
                                assert(!(self.bids[o].window_ref.window_index
                                    == self.bids[k].window_ref.window_index && self.bids[o].bidder
                                    == self.bids[k].bidder));
                            } else {
                                assert(!(self.bids[k].window_ref.window_index
                                    == self.bids[o].window_ref.window_index && self.bids[k].bidder
                                    == self.bids[o].bidder));
                            }
                        } else {
                            assert(self.windows[j].settled);
                        }
                    }
                }
            },
        }
    }

    // ----- reclaiming -----
    /// Why the reclaim is refused, or `None` where it is accepted.
    ///
    /// In this order: `EscrowClosed`; `NotBidder` where `bidder` has no live
    /// bid in the window; `NotSettled` where the window has not been settled.
    pub open spec fn reclaim_verdict(self, index: u64, bidder: Key) -> Option<ErrorCode> {
        if self.escrow.status == EscrowStatus::Closed {
            Some(ErrorCode::EscrowClosed)
        } else if !self.holds_bid(index, bidder) {
            Some(ErrorCode::NotBidder)
        } else if !(self.holds_window(index) && self.windows[self.window_slot(index)].settled) {
            Some(ErrorCode::NotSettled)
        } else {
            None
        }
    }

    /// The state after the reclaim: the bid record of `bidder` in the window
    /// is gone, and nothing else changes.
    pub open spec fn after_reclaim(self, index: u64, bidder: Key) -> AuctionState {
        AuctionState { bids: self.bids.remove(self.bid_slot(index, bidder)), ..self }
    }

    /// The ledger operations of the reclaim: all that the custody of the
    /// window holds of `bidder` goes back to `bidder`; none where it holds nothing.
    pub open spec fn reclaim_ops(self, index: u64, bidder: Key) -> Seq<LedgerOp> {
        let held = self.custody(index, bidder);
        if held > 0 {
            seq![
                LedgerOp::TransferValue {
                    from: Holder::Custody(self.window_ref(index)),
                    to: Holder::Party(bidder),
                    amount: held,
                },
            ]
        } else {
            Seq::empty()
        }
    }

    /// An accepted reclaim keeps the invariant; the bid is gone and every
    /// other bid stays.
    pub proof fn lemma_after_reclaim_wf(self, index: u64, bidder: Key)
        requires
            self.wf(),
            self.reclaim_verdict(index, bidder) is None,
        ensures
            self.after_reclaim(index, bidder).wf(),
            !self.after_reclaim(index, bidder).holds_bid(index, bidder),
            forall|w: u64, other: Key|
                !(w == index && other == bidder) ==> (#[trigger] self.after_reclaim(
                    index,
                    bidder,
                ).bid(w, other)) == self.bid(w, other),
    {
        let next = self.after_reclaim(index, bidder);
        let k = self.bid_slot(index, bidder);
        let i = self.window_slot(index);
        assert(0 <= k < self.bids.len() && self.bids[k].window_ref.window_index == index
            && self.bids[k].bidder == bidder);
        assert(0 <= i < self.windows.len() && self.windows[i].window_index == index);
        self.lemma_bid_removed(k);
        lemma_remove_shifts(self.bids, k);
        assert(next.bids_have_windows()) by {
            assert forall|l: int| 0 <= l < next.bids.len() implies #[trigger] next.bid_has_window(
                l,
            ) by {
                let o = if l < k {
                    l
                } else {
                    l + 1
                };
                assert(next.bids[l] == self.bids[o]);
                assert(self.bid_has_window(o));
                let j = choose|j: int|
                    0 <= j < self.windows.len() && #[trigger] window_covers(
                        self.windows[j],
                        self.bids[o],
                    );
                assert(window_covers(next.windows[j], next.bids[l]));
            }
        }
        assert(next.leaders_are_backed()) by {
            assert forall|j: int|
                0 <= j < next.windows.len() && !(#[trigger] next.windows[j]).settled
                    && next.windows[j].highest is Some implies next.leader_is_backed(j) by {
                assert(self.leader_is_backed(j));
                let o = choose|o: int|
                    0 <= o < self.bids.len() && #[trigger] bid_backs(self.bids[o], self.windows[j]);
                if j < i {
                    assert(self.windows[j].window_index < self.windows[i].window_index);
                } else if i < j {
                    assert(self.windows[i].window_index < self.windows[j].window_index);
                }
                assert(o != k);
                let l = if o < k {
                    o
                } else {
                    o - 1
                };
                assert(next.bids[l] == self.bids[o]);
                assert(bid_backs(next.bids[l], next.windows[j]));
            }
        }
        assert(next.winners_are_paid_out()) by {
            assert forall|j: int, l: int|
                0 <= j < next.windows.len() && 0 <= l < next.bids.len() && (
                #[trigger] next.windows[j]).settled && next.windows[j].highest is Some implies !((
            #[trigger] next.bids[l]).window_ref.window_index == next.windows[j].window_index
                && next.bids[l].bidder == next.windows[j].highest->Some_0.bidder) by {
                let o = if l < k {
                    l
                } else {
                    l + 1
                };
                assert(next.bids[l] == self.bids[o]);
                assert(self.windows[j].settled);
            }
        }
    }
}

} // verus!
