//! Taking the records of an auction off the store and putting them back.
//!
//! An auction can be read record by record, to be written wherever its
//! records are kept, and can be made again from such records. `restore`
//! holds the records to the whole invariant of the engine before it accepts
//! them, so that an auction is well formed wherever its records come from.

use vstd::prelude::*;
use crate::engine::RicksAuction;
use crate::error::ErrorCode;
use crate::key::EscrowRef;
use crate::model::{bid_backs, window_covers, AuctionState};
use crate::schedule::{window_closes_at, window_opens_at};
use crate::state::auction::{AuctionWindow, Bid};
use crate::state::escrow::Escrow;
use crate::state::user_position::{lemma_total_owned_prefix, total_owned, UserPosition};

verus! {

impl RicksAuction {
    // ----- reading the records -----
    /// The window in place `slot`, counted from the oldest.
    pub fn window_at(&self, slot: usize) -> (r: Option<AuctionWindow>)
        ensures
            r == if slot < self@.windows.len() {
                Some(self@.windows[slot as int])
            } else {
                None
            },
    {
        if slot < self.windows.len() {
            Some(self.windows[slot])
        } else {
            None
        }
    }

    /// The bid in place `slot`.
    pub fn bid_at(&self, slot: usize) -> (r: Option<Bid>)
        ensures
            r == if slot < self@.bids.len() {
                Some(self@.bids[slot as int])
            } else {
                None
            },
    {
        if slot < self.bids.len() {
            Some(self.bids[slot])
        } else {
            None
        }
    }

    /// The position in place `slot`.
    pub fn position_at(&self, slot: usize) -> (r: Option<UserPosition>)
        ensures
            r == if slot < self@.positions.len() {
                Some(self@.positions[slot as int])
            } else {
                None
            },
    {
        if slot < self.positions.len() {
            Some(self.positions[slot])
        } else {
            None
        }
    }

    // ----- making an auction from its records -----
    /// Makes the auction again that these records were read from.
    ///
    /// Accepted exactly where the records satisfy the invariant of the
    /// engine, `AuctionState::wf`; the auction then holds them as they are.
    /// Any other records are refused with `InvalidParams`.
    pub fn restore(
        escrow_ref: EscrowRef,
        escrow: Escrow,
        windows: Vec<AuctionWindow>,
        bids: Vec<Bid>,
        positions: Vec<UserPosition>,
    ) -> (r: Result<RicksAuction, ErrorCode>)
        ensures
            r is Ok <==> (AuctionState {
                escrow_ref,
                escrow,
                windows: windows@,
                bids: bids@,
                positions: positions@,
            }).wf(),
            r matches Ok(auction) ==> auction@ == (AuctionState {
                escrow_ref,
                escrow,
                windows: windows@,
                bids: bids@,
                positions: positions@,
            }),
            r matches Err(e) ==> e == ErrorCode::InvalidParams,
    {
        let candidate = RicksAuction { escrow_ref, escrow, windows, bids, positions };
        if candidate.is_well_formed() {
            Ok(candidate)
        } else {
            Err(ErrorCode::InvalidParams)
        }
    }

    /// Whether the records satisfy the invariant of the engine.
    fn is_well_formed(&self) -> (ok: bool)
        ensures
            ok == self@.wf(),
    {
        let escrow = &self.escrow;
        if !(1 <= escrow.fractions_per_window && escrow.fractions_per_window
            <= escrow.total_fractions && escrow.outstanding_fractions <= escrow.total_fractions
            && escrow.window_length >= 1) {
            return false;
        }
        if !(self.windows_fit() && self.windows_ascend() && self.only_newest_unsettled()) {
            return false;
        }
        let n: usize = self.windows.len();
        if n > 0 && !self.windows[n - 1].settled && escrow.outstanding_fractions
            < escrow.fractions_per_window {
            return false;
        }
        if !(self.bids_fit() && self.bids_have_windows() && self.bids_are_distinct()) {
            return false;
        }
        if !(self.leaders_are_backed() && self.winners_reduce_supply()
            && self.winners_are_paid_out()) {
            return false;
        }
        if !(self.positions_fit() && self.positions_are_distinct() && self.supply_is_conserved()) {
            return false;
        }
        escrow.is_locked() || (self.windows.len() == 0 && self.bids.len() == 0)
    }

    fn windows_fit(&self) -> (ok: bool)
        requires
            self.escrow.window_length >= 1,
        ensures
            ok == self@.windows_fit(),
    {
        let mut i: usize = 0;
        while i < self.windows.len()
            invariant
                i <= self.windows.len(),
                self.escrow.window_length >= 1,
                forall|j: int| 0 <= j < i ==> self@.window_fits(#[trigger] self.windows@[j]),
            decreases self.windows.len() - i,
        {
            let window = self.windows[i];
            let on_time = match (
                window_opens_at(
                    self.escrow.genesis_time,
                    self.escrow.window_length,
                    window.window_index,
                ),
                window_closes_at(
                    self.escrow.genesis_time,
                    self.escrow.window_length,
                    window.window_index,
                ),
            ) {
                (Ok(opens_at), Ok(closes_at)) => window.opens_at == opens_at && window.closes_at
                    == closes_at,
                _ => false,
            };
            if !(on_time && window.escrow_ref == self.escrow_ref && window.fractions_on_offer
                == self.escrow.fractions_per_window) {
                assert(!self@.window_fits(self@.windows[i as int]));
                return false;
            }
            i = i + 1;
        }
        true
    }

    fn windows_ascend(&self) -> (ok: bool)
        ensures
            ok == self@.windows_ascend(),
    {
        let mut i: usize = 1;
        while i < self.windows.len()
            invariant
                1 <= i,
                forall|a: int, b: int|
                    0 <= a < b < i && b < self.windows.len() ==> (
                    #[trigger] self.windows@[a]).window_index < (
                    #[trigger] self.windows@[b]).window_index,
            decreases self.windows.len() - i,
        {
            if self.windows[i - 1].window_index >= self.windows[i].window_index {
                return false;
            }
            assert forall|a: int, b: int| 0 <= a < b < i + 1 && b < self.windows.len() implies (
            #[trigger] self.windows@[a]).window_index < (
            #[trigger] self.windows@[b]).window_index by {
                if b == i && a < i - 1 {
                    assert(self.windows@[a].window_index < self.windows@[i - 1].window_index);
                }
            }
            i = i + 1;
        }
        true
    }

    fn only_newest_unsettled(&self) -> (ok: bool)
        ensures
            ok == self@.only_newest_unsettled(),
    {
        let n: usize = self.windows.len();
        if n == 0 {
            return true;
        }
        let mut i: usize = 0;
        while i < n - 1
            invariant
                n == self.windows.len(),
                n > 0,
                i <= n - 1,
                forall|j: int| 0 <= j < i ==> (#[trigger] self.windows@[j]).settled,
            decreases n - i,
        {
            if !self.windows[i].settled {
                assert(!self@.windows[i as int].settled);
                return false;
            }
            i = i + 1;
        }
        true
    }

    fn bids_fit(&self) -> (ok: bool)
        ensures
            ok == self@.bids_fit(),
    {
        let mut k: usize = 0;
        while k < self.bids.len()
            invariant
                k <= self.bids.len(),
                forall|l: int|
                    0 <= l < k ==> (#[trigger] self.bids@[l]).window_ref.escrow == self.escrow_ref
                        && self.bids@[l].custodied_balance >= self.bids@[l].amount,
            decreases self.bids.len() - k,
        {
            let bid = self.bids[k];
            if !(bid.window_ref.escrow == self.escrow_ref && bid.custodied_balance >= bid.amount) {
                assert(self@.bids[k as int] == bid);
                return false;
            }
            k = k + 1;
        }
        true
    }

    fn bids_have_windows(&self) -> (ok: bool)
        requires
            self@.windows_ascend(),
        ensures
            ok == self@.bids_have_windows(),
    {
        let mut k: usize = 0;
        while k < self.bids.len()
            invariant
                k <= self.bids.len(),
                self@.windows_ascend(),
                forall|l: int| 0 <= l < k ==> #[trigger] self@.bid_has_window(l),
            decreases self.bids.len() - k,
        {
            let bid = self.bids[k];
            let covered = match self.find_window(bid.window_ref.window_index) {
                Some(i) => match self.windows[i].highest {
                    Some(h) => {
                        assert(h.amount >= bid.amount ==> window_covers(
                            self@.windows[i as int],
                            self@.bids[k as int],
                        ));
                        bid.amount <= h.amount
                    },
                    None => false,
                },
                None => false,
            };
            if !covered {
                assert(!self@.bid_has_window(k as int)) by {
                    if self@.bid_has_window(k as int) {
                        let i = choose|i: int|
                            0 <= i < self@.windows.len() && #[trigger] window_covers(
                                self@.windows[i],
                                self@.bids[k as int],
                            );
                        self@.lemma_window_slot(i);
                    }
                }
                return false;
            }
            k = k + 1;
        }
        true
    }

    fn bids_are_distinct(&self) -> (ok: bool)
        ensures
            ok == self@.bids_are_distinct(),
    {
        let mut k: usize = 0;
        while k < self.bids.len()
            invariant
                forall|a: int, b: int|
                    0 <= a < b < self.bids.len() && a < k ==> !((
                    #[trigger] self.bids@[a]).window_ref.window_index == (
                    #[trigger] self.bids@[b]).window_ref.window_index && self.bids@[a].bidder
                        == self.bids@[b].bidder),
            decreases self.bids.len() - k,
        {
            let mut l: usize = k + 1;
            while l < self.bids.len()
                invariant
                    k < l,
                    k < self.bids.len(),
                    forall|b: int|
                        k < b < l && b < self.bids.len() ==> !(self.bids@[k as int].window_ref.window_index
                            == (#[trigger] self.bids@[b]).window_ref.window_index
                            && self.bids@[k as int].bidder == self.bids@[b].bidder),
                decreases self.bids.len() - l,
            {
                if self.bids[k].window_ref.window_index == self.bids[l].window_ref.window_index
                    && self.bids[k].bidder == self.bids[l].bidder {
                    assert(self@.bids[k as int].window_ref.window_index
                        == self@.bids[l as int].window_ref.window_index
                        && self@.bids[k as int].bidder == self@.bids[l as int].bidder);
                    return false;
                }
                l = l + 1;
            }
            k = k + 1;
        }
        true
    }

    fn leaders_are_backed(&self) -> (ok: bool)
        requires
            self@.bids_are_distinct(),
        ensures
            ok == self@.leaders_are_backed(),
    {
        let mut i: usize = 0;
        while i < self.windows.len()
            invariant
                i <= self.windows.len(),
                self@.bids_are_distinct(),
                forall|j: int|
                    0 <= j < i && !(#[trigger] self.windows@[j]).settled
                        && self.windows@[j].highest is Some ==> self@.leader_is_backed(j),
            decreases self.windows.len() - i,
        {
            let window = self.windows[i];
            if !window.settled {
                if let Some(h) = window.highest {
                    let backed = match self.find_bid(window.window_index, h.bidder) {
                        Some(k) => {
                            assert(self.bids@[k as int].amount == h.amount ==> bid_backs(
                                self@.bids[k as int],
                                self@.windows[i as int],
                            ));
                            self.bids[k].amount == h.amount
                        },
                        None => false,
                    };
                    if !backed {
                        assert(!self@.leader_is_backed(i as int)) by {
                            if self@.leader_is_backed(i as int) {
                                let k = choose|k: int|
                                    0 <= k < self@.bids.len() && #[trigger] bid_backs(
                                        self@.bids[k],
                                        self@.windows[i as int],
                                    );
                                self@.lemma_bid_slot(k);
                            }
                        }
                        return false;
                    }
                }
            }
            i = i + 1;
        }
        true
    }

    fn winners_reduce_supply(&self) -> (ok: bool)
        ensures
            ok == self@.winners_reduce_supply(),
    {
        if self.escrow.outstanding_fractions < self.escrow.total_fractions {
            return true;
        }
        let mut i: usize = 0;
        while i < self.windows.len()
            invariant
                i <= self.windows.len(),
                self.escrow.outstanding_fractions >= self.escrow.total_fractions,
                forall|j: int|
                    0 <= j < i ==> !((#[trigger] self.windows@[j]).settled
                        && self.windows@[j].highest is Some),
            decreases self.windows.len() - i,
        {
            if self.windows[i].settled && self.windows[i].highest.is_some() {
                assert(self@.windows[i as int].settled && self@.windows[i as int].highest is Some);
                return false;
            }
            i = i + 1;
        }
        true
    }

    fn winners_are_paid_out(&self) -> (ok: bool)
        requires
            self@.bids_are_distinct(),
        ensures
            ok == self@.winners_are_paid_out(),
    {
        let mut i: usize = 0;
        while i < self.windows.len()
            invariant
                i <= self.windows.len(),
                self@.bids_are_distinct(),
                forall|j: int, k: int|
                    0 <= j < i && 0 <= k < self.bids@.len() && (
                    #[trigger] self.windows@[j]).settled && self.windows@[j].highest is Some ==> !((
                    #[trigger] self.bids@[k]).window_ref.window_index
                        == self.windows@[j].window_index && self.bids@[k].bidder
                        == self.windows@[j].highest->Some_0.bidder),
            decreases self.windows.len() - i,
        {
            let window = self.windows[i];
            if window.settled {
                if let Some(h) = window.highest {
                    if let Some(k) = self.find_bid(window.window_index, h.bidder) {
                        assert(self@.windows[i as int].settled && self@.bids[k as int].bidder
                            == h.bidder);
                        return false;
                    }
                    assert forall|k: int| 0 <= k < self.bids@.len() implies !((
                    #[trigger] self.bids@[k]).window_ref.window_index == window.window_index
                        && self.bids@[k].bidder == h.bidder) by {
                        if self.bids@[k].window_ref.window_index == window.window_index
                            && self.bids@[k].bidder == h.bidder {
                            assert(self@.bids[k].window_ref.window_index == window.window_index);
                            assert(self@.holds_bid(window.window_index, h.bidder));
                        }
                    }
                }
            }
            i = i + 1;
        }
        true
    }

    fn positions_fit(&self) -> (ok: bool)
        ensures
            ok == self@.positions_fit(),
    {
        let mut p: usize = 0;
        while p < self.positions.len()
            invariant
                p <= self.positions.len(),
                forall|q: int|
                    0 <= q < p ==> (#[trigger] self.positions@[q]).escrow_ref == self.escrow_ref,
            decreases self.positions.len() - p,
        {
            if self.positions[p].escrow_ref != self.escrow_ref {
                assert(self@.positions[p as int].escrow_ref != self@.escrow_ref);
                return false;
            }
            p = p + 1;
        }
        true
    }

    fn positions_are_distinct(&self) -> (ok: bool)
        ensures
            ok == self@.positions_are_distinct(),
    {
        let mut p: usize = 0;
        while p < self.positions.len()
            invariant
                forall|a: int, b: int|
                    0 <= a < b < self.positions.len() && a < p ==> (
                    #[trigger] self.positions@[a]).user != (#[trigger] self.positions@[b]).user,
            decreases self.positions.len() - p,
        {
            let mut q: usize = p + 1;
            while q < self.positions.len()
                invariant
                    p < q,
                    p < self.positions.len(),
                    forall|b: int|
                        p < b < q && b < self.positions.len() ==> self.positions@[p as int].user != (
                        #[trigger] self.positions@[b]).user,
                decreases self.positions.len() - q,
            {
                if self.positions[p].user == self.positions[q].user {
                    assert(self@.positions[p as int].user == self@.positions[q as int].user);
                    return false;
                }
                q = q + 1;
            }
            p = p + 1;
        }
        true
    }

    fn supply_is_conserved(&self) -> (ok: bool)
        requires
            self.escrow.outstanding_fractions <= self.escrow.total_fractions,
        ensures
            ok == self@.supply_is_conserved(),
    {
        let handed_out: u64 = self.escrow.total_fractions - self.escrow.outstanding_fractions;
        let mut owned: u64 = 0;
        let mut p: usize = 0;
        while p < self.positions.len()
            invariant
                p <= self.positions.len(),
                owned == total_owned(self.positions@.take(p as int)),
                owned <= handed_out,
                handed_out == self.escrow.total_fractions - self.escrow.outstanding_fractions,
            decreases self.positions.len() - p,
        {
            proof {
                assert(self@.positions == self.positions@);
                lemma_total_owned_prefix(self.positions@, p as int);
                lemma_total_owned_prefix(self.positions@, p as int + 1);
            }
            if self.positions[p].fractions_owned > handed_out - owned {
                assert(total_owned(self@.positions) > handed_out);
                return false;
            }
            owned = owned + self.positions[p].fractions_owned;
            p = p + 1;
        }
        assert(self.positions@.take(p as int) =~= self.positions@);
        assert(self@.positions == self.positions@);
        owned == handed_out
    }
}

} // verus!
