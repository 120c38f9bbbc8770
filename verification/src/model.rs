//! The auction of one escrow as a mathematical state.
//!
//! `AuctionState` is what the records of one escrow hold, as sequences. The
//! commands are functions on it: for each command a verdict, which is the
//! error that refuses it or `None`, the state after it, and the ledger
//! operations that it calls for. The executable engine is specified against
//! these functions, and the laws of the engine are proved of them.

use vstd::prelude::*;
use crate::key::{EscrowRef, Key, WindowRef};
use crate::schedule::{spec_window_closes_at, spec_window_opens_at};
use crate::state::auction::{AuctionWindow, Bid};
use crate::state::escrow::{Escrow, EscrowStatus};
use crate::state::user_position::{total_owned, UserPosition};

pub mod bidding;
pub mod lifecycle;
pub mod settlement;

verus! {

/// The records of one escrow.
pub struct AuctionState {
    /// The name of the escrow.
    pub escrow_ref: EscrowRef,
    /// The escrow record.
    pub escrow: Escrow,
    /// The windows that were opened, oldest first.
    pub windows: Seq<AuctionWindow>,
    /// The live bids of all the windows.
    pub bids: Seq<Bid>,
    /// The positions of the users.
    pub positions: Seq<UserPosition>,
}

/// The window of the bid is on record, has a leader, and the leader bids no
/// less than the bid.
pub open spec fn window_covers(window: AuctionWindow, bid: Bid) -> bool {
    &&& window.window_index == bid.window_ref.window_index
    &&& window.highest matches Some(h)
    &&& bid.amount <= h.amount
}

/// The bid is the leading bid of the window.
pub open spec fn bid_backs(bid: Bid, window: AuctionWindow) -> bool {
    &&& window.highest matches Some(h)
    &&& bid.window_ref.window_index == window.window_index
    &&& bid.bidder == h.bidder
    &&& bid.amount == h.amount
}

impl AuctionState {
    // ----- looking records up -----
    /// Whether a window with this index is on record.
    pub open spec fn holds_window(self, index: u64) -> bool {
        exists|i: int|
            0 <= i < self.windows.len() && (#[trigger] self.windows[i]).window_index == index
    }

    /// The place of the window with this index.
    pub open spec fn window_slot(self, index: u64) -> int {
        choose|i: int|
            0 <= i < self.windows.len() && (#[trigger] self.windows[i]).window_index == index
    }

    /// The window with this index, if it is on record.
    pub open spec fn window(self, index: u64) -> Option<AuctionWindow> {
        if self.holds_window(index) {
            Some(self.windows[self.window_slot(index)])
        } else {
            None
        }
    }

    /// Whether `bidder` has a live bid in the window with this index.
    pub open spec fn holds_bid(self, index: u64, bidder: Key) -> bool {
        exists|k: int|
            0 <= k < self.bids.len() && (#[trigger] self.bids[k]).window_ref.window_index == index
                && self.bids[k].bidder == bidder
    }

    /// The place of the live bid of `bidder` in the window with this index.
    pub open spec fn bid_slot(self, index: u64, bidder: Key) -> int {
        choose|k: int|
            0 <= k < self.bids.len() && (#[trigger] self.bids[k]).window_ref.window_index == index
                && self.bids[k].bidder == bidder
    }

    /// The live bid of `bidder` in the window with this index, if there is one.
    pub open spec fn bid(self, index: u64, bidder: Key) -> Option<Bid> {
        if self.holds_bid(index, bidder) {
            Some(self.bids[self.bid_slot(index, bidder)])
        } else {
            None
        }
    }

    /// The funds of `bidder` that the custody of the window holds.
    pub open spec fn custody(self, index: u64, bidder: Key) -> u64 {
        match self.bid(index, bidder) {
            Some(bid) => bid.custodied_balance,
            None => 0,
        }
    }

    /// Whether `user` has a position.
    pub open spec fn holds_position(self, user: Key) -> bool {
        exists|p: int| 0 <= p < self.positions.len() && (#[trigger] self.positions[p]).user == user
    }

    /// The place of the position of `user`.
    pub open spec fn position_slot(self, user: Key) -> int {
        choose|p: int| 0 <= p < self.positions.len() && (#[trigger] self.positions[p]).user == user
    }

    /// The position of `user`, if there is one.
    pub open spec fn position(self, user: Key) -> Option<UserPosition> {
        if self.holds_position(user) {
            Some(self.positions[self.position_slot(user)])
        } else {
            None
        }
    }

    /// The fractions that `user` has won from the escrow.
    pub open spec fn owned(self, user: Key) -> u64 {
        match self.position(user) {
            Some(position) => position.fractions_owned,
            None => 0,
        }
    }

    /// The name of the window with this index.
    pub open spec fn window_ref(self, index: u64) -> WindowRef {
        WindowRef { escrow: self.escrow_ref, window_index: index }
    }

    // ----- what every state keeps -----
    /// The window belongs to this escrow, offers what the escrow releases per
    /// window, and opens and closes as the schedule says.
    pub open spec fn window_fits(self, window: AuctionWindow) -> bool {
        &&& window.escrow_ref == self.escrow_ref
        &&& window.fractions_on_offer == self.escrow.fractions_per_window
        &&& window.opens_at as int == spec_window_opens_at(
            self.escrow.genesis_time as int,
            self.escrow.window_length as int,
            window.window_index as int,
        )
        &&& window.closes_at as int == spec_window_closes_at(
            self.escrow.genesis_time as int,
            self.escrow.window_length as int,
            window.window_index as int,
        )
    }

    /// Every window fits the escrow and its schedule.
    pub open spec fn windows_fit(self) -> bool {
        forall|i: int| 0 <= i < self.windows.len() ==> self.window_fits(#[trigger] self.windows[i])
    }

    /// The windows stand in the order of their indices, and no index occurs twice.
    pub open spec fn windows_ascend(self) -> bool {
        forall|i: int, j: int|
            0 <= i < j < self.windows.len() ==> (#[trigger] self.windows[i]).window_index < (
            #[trigger] self.windows[j]).window_index
    }

    /// Every window but the newest has been settled.
    pub open spec fn only_newest_unsettled(self) -> bool {
        forall|i: int| 0 <= i < self.windows.len() - 1 ==> (#[trigger] self.windows[i]).settled
    }

    /// Whether a window waits for its settlement.
    pub open spec fn has_unsettled_window(self) -> bool {
        self.windows.len() > 0 && !self.windows.last().settled
    }

    /// Every bid belongs to this escrow, and the custody holds at least its amount.
    pub open spec fn bids_fit(self) -> bool {
        forall|k: int|
            0 <= k < self.bids.len() ==> (#[trigger] self.bids[k]).window_ref.escrow
                == self.escrow_ref && self.bids[k].custodied_balance >= self.bids[k].amount
    }

    /// The window of the bid in place `k` is on record and led by no smaller bid.
    pub open spec fn bid_has_window(self, k: int) -> bool {
        exists|i: int|
            0 <= i < self.windows.len() && #[trigger] window_covers(self.windows[i], self.bids[k])
    }

    /// The window of every bid is on record and led by no smaller bid.
    pub open spec fn bids_have_windows(self) -> bool {
        forall|k: int| 0 <= k < self.bids.len() ==> #[trigger] self.bid_has_window(k)
    }

    /// No bidder has two live bids in one window.
    pub open spec fn bids_are_distinct(self) -> bool {
        forall|k: int, l: int|
            0 <= k < l < self.bids.len() ==> !((#[trigger] self.bids[k]).window_ref.window_index
                == (#[trigger] self.bids[l]).window_ref.window_index && self.bids[k].bidder
                == self.bids[l].bidder)
    }

    /// The leading bid of the window in place `i` is on record.
    pub open spec fn leader_is_backed(self, i: int) -> bool {
        exists|k: int| 0 <= k < self.bids.len() && #[trigger] bid_backs(self.bids[k], self.windows[i])
    }

    /// The leading bid of every unsettled window is on record.
    pub open spec fn leaders_are_backed(self) -> bool {
        forall|i: int|
            0 <= i < self.windows.len() && !(#[trigger] self.windows[i]).settled
                && self.windows[i].highest is Some ==> self.leader_is_backed(i)
    }

    /// While the whole supply is outstanding, no settled window has a winner.
    pub open spec fn winners_reduce_supply(self) -> bool {
        forall|i: int|
            0 <= i < self.windows.len() && (#[trigger] self.windows[i]).settled
                && self.windows[i].highest is Some ==> self.escrow.outstanding_fractions
                < self.escrow.total_fractions
    }

    /// The custody of a settled window holds nothing of its winner: the bid
    /// record of the winner is gone.
    pub open spec fn winners_are_paid_out(self) -> bool {
        forall|i: int, k: int|
            0 <= i < self.windows.len() && 0 <= k < self.bids.len() && (
            #[trigger] self.windows[i]).settled && self.windows[i].highest is Some ==> !((
            #[trigger] self.bids[k]).window_ref.window_index == self.windows[i].window_index
                && self.bids[k].bidder == self.windows[i].highest->Some_0.bidder)
    }

    /// Every position belongs to this escrow.
    pub open spec fn positions_fit(self) -> bool {
        forall|p: int|
            0 <= p < self.positions.len() ==> (#[trigger] self.positions[p]).escrow_ref
                == self.escrow_ref
    }

    /// No user has two positions.
    pub open spec fn positions_are_distinct(self) -> bool {
        forall|p: int, q: int|
            0 <= p < q < self.positions.len() ==> (#[trigger] self.positions[p]).user != (
            #[trigger] self.positions[q]).user
    }

    /// What the users own and what is outstanding make up the supply.
    pub open spec fn supply_is_conserved(self) -> bool {
        total_owned(self.positions) + self.escrow.outstanding_fractions
            == self.escrow.total_fractions
    }

    /// The invariant of the engine.
    pub open spec fn wf(self) -> bool {
        &&& self.escrow.wf()
        &&& self.windows_fit()
        &&& self.windows_ascend()
        &&& self.only_newest_unsettled()
        &&& self.has_unsettled_window() ==> self.escrow.outstanding_fractions
            >= self.escrow.fractions_per_window
        &&& self.bids_fit()
        &&& self.bids_have_windows()
        &&& self.bids_are_distinct()
        &&& self.leaders_are_backed()
        &&& self.winners_reduce_supply()
        &&& self.winners_are_paid_out()
        &&& self.positions_fit()
        &&& self.positions_are_distinct()
        &&& self.supply_is_conserved()
        &&& self.escrow.status == EscrowStatus::Closed ==> self.windows.len() == 0
            && self.bids.len() == 0
    }

    // ----- places and keys -----
    /// The window in place `i` is the one that its index names.
    pub proof fn lemma_window_slot(self, i: int)
        requires
            self.windows_ascend(),
            0 <= i < self.windows.len(),
        ensures
            self.holds_window(self.windows[i].window_index),
            self.window_slot(self.windows[i].window_index) == i,
            self.window(self.windows[i].window_index) == Some(self.windows[i]),
    {
        let j = self.window_slot(self.windows[i].window_index);
        assert(0 <= j < self.windows.len() && self.windows[j].window_index
            == self.windows[i].window_index);
        if j < i {
            assert(self.windows[j].window_index < self.windows[i].window_index);
        } else if i < j {
            assert(self.windows[i].window_index < self.windows[j].window_index);
        }
    }

    /// The bid in place `k` is the one that its window and its bidder name.
    pub proof fn lemma_bid_slot(self, k: int)
        requires
            self.bids_are_distinct(),
            0 <= k < self.bids.len(),
        ensures
            self.holds_bid(self.bids[k].window_ref.window_index, self.bids[k].bidder),
            self.bid_slot(self.bids[k].window_ref.window_index, self.bids[k].bidder) == k,
            self.bid(self.bids[k].window_ref.window_index, self.bids[k].bidder) == Some(
                self.bids[k],
            ),
    {
        let l = self.bid_slot(self.bids[k].window_ref.window_index, self.bids[k].bidder);
        assert(0 <= l < self.bids.len() && self.bids[l].window_ref.window_index
            == self.bids[k].window_ref.window_index && self.bids[l].bidder == self.bids[k].bidder);
        if l < k {
            assert(!(self.bids[l].window_ref.window_index == self.bids[k].window_ref.window_index
                && self.bids[l].bidder == self.bids[k].bidder));
        } else if k < l {
            assert(!(self.bids[k].window_ref.window_index == self.bids[l].window_ref.window_index
                && self.bids[k].bidder == self.bids[l].bidder));
        }
    }

    /// The position in place `p` is the one that its user names.
    pub proof fn lemma_position_slot(self, p: int)
        requires
            self.positions_are_distinct(),
            0 <= p < self.positions.len(),
        ensures
            self.holds_position(self.positions[p].user),
            self.position_slot(self.positions[p].user) == p,
            self.position(self.positions[p].user) == Some(self.positions[p]),
    {
        let q = self.position_slot(self.positions[p].user);
        assert(0 <= q < self.positions.len() && self.positions[q].user == self.positions[p].user);
        if q < p {
            assert(self.positions[q].user != self.positions[p].user);
        } else if p < q {
            assert(self.positions[p].user != self.positions[q].user);
        }
    }

    /// Every window that is older than the newest has a smaller index.
    pub proof fn lemma_newest_has_largest_index(self, i: int)
        requires
            self.windows_ascend(),
            0 <= i < self.windows.len(),
        ensures
            self.windows[i].window_index <= self.windows.last().window_index,
    {
        if i < self.windows.len() - 1 {
            assert(self.windows[i].window_index < self.windows[self.windows.len() - 1].window_index);
        }
    }
}

} // verus!
