//! The executable auction of one escrow.

use vstd::prelude::*;
use crate::error::ErrorCode;
use crate::key::{EscrowRef, Key, WindowRef};
use crate::ledger::{Holder, LedgerOp};
use crate::model::AuctionState;
use crate::schedule::{
    lemma_current_window_is_open, window_closes_at, window_index,
};
use crate::state::auction::{AuctionWindow, Bid, HighestBid};
use crate::state::escrow::{Escrow, EscrowParams, EscrowStatus};
use crate::state::user_position::{lemma_total_owned_bounds, UserPosition};

pub mod restore;

verus! {

/// The perpetual auction of one escrow: the escrow record with its windows,
/// the live bids of its windows, and the positions of its users.
///
/// Its view is the `AuctionState` that the records make up. Every value
/// satisfies the invariant `AuctionState::wf`: it is made by `new`, and every
/// method keeps it.
#[derive(Debug)]
pub struct RicksAuction {
    escrow_ref: EscrowRef,
    escrow: Escrow,
    windows: Vec<AuctionWindow>,
    bids: Vec<Bid>,
    positions: Vec<UserPosition>,
}

impl View for RicksAuction {
    type V = AuctionState;

    closed spec fn view(&self) -> AuctionState {
        AuctionState {
            escrow_ref: self.escrow_ref,
            escrow: self.escrow,
            windows: self.windows@,
            bids: self.bids@,
            positions: self.positions@,
        }
    }
}

impl RicksAuction {
    // ----- making and reading -----
    /// Makes the auction of a new escrow.
    ///
    /// Refused with `InvalidParams` where the parameters are not valid.
    pub fn new(escrow_ref: EscrowRef, params: &EscrowParams) -> (r: Result<RicksAuction, ErrorCode>)
        ensures
            r is Ok <==> params.valid(),
            r matches Ok(auction) ==> auction@ == AuctionState::initial(escrow_ref, *params)
                && auction@.wf(),
            r matches Err(e) ==> e == ErrorCode::InvalidParams,
    {
        match params.validate() {
            Err(e) => Err(e),
            Ok(()) => {
                let auction = RicksAuction {
                    escrow_ref,
                    escrow: params.escrow(),
                    windows: Vec::new(),
                    bids: Vec::new(),
                    positions: Vec::new(),
                };
                proof {
                    AuctionState::lemma_initial_wf(escrow_ref, *params);
                    assert(auction@.windows =~= Seq::empty());
                    assert(auction@.bids =~= Seq::empty());
                    assert(auction@.positions =~= Seq::empty());
                }
                Ok(auction)
            },
        }
    }

    /// The name of the escrow.
    pub fn escrow_ref(&self) -> (r: EscrowRef)
        ensures
            r == self@.escrow_ref,
    {
        self.escrow_ref
    }

    /// The escrow record.
    pub fn escrow(&self) -> (escrow: Escrow)
        ensures
            escrow == self@.escrow,
    {
        self.escrow
    }

    /// The number of windows on record.
    pub fn window_count(&self) -> (n: usize)
        ensures
            n == self@.windows.len(),
    {
        self.windows.len()
    }

    /// The number of live bids.
    pub fn bid_count(&self) -> (n: usize)
        ensures
            n == self@.bids.len(),
    {
        self.bids.len()
    }

    /// The number of positions.
    pub fn position_count(&self) -> (n: usize)
        ensures
            n == self@.positions.len(),
    {
        self.positions.len()
    }

    /// The place of the window with this index.
    fn find_window(&self, index: u64) -> (r: Option<usize>)
        requires
            self@.windows_ascend(),
        ensures
            r is Some <==> self@.holds_window(index),
            r matches Some(i) ==> i == self@.window_slot(index) && i < self.windows.len()
                && self.windows[i as int].window_index == index,
    {
        let mut i: usize = 0;
        while i < self.windows.len()
            invariant
                i <= self.windows.len(),
                self@.windows_ascend(),
                forall|j: int| 0 <= j < i ==> (#[trigger] self.windows@[j]).window_index != index,
            decreases self.windows.len() - i,
        {
            if self.windows[i].window_index == index {
                proof {
                    self@.lemma_window_slot(i as int);
                }
                return Some(i);
            }
            i = i + 1;
        }
        None
    }

    /// The place of the live bid of `bidder` in the window with this index.
    fn find_bid(&self, index: u64, bidder: Key) -> (r: Option<usize>)
        requires
            self@.bids_are_distinct(),
        ensures
            r is Some <==> self@.holds_bid(index, bidder),
            r matches Some(k) ==> k == self@.bid_slot(index, bidder) && k < self.bids.len()
                && self.bids[k as int].window_ref.window_index == index
                && self.bids[k as int].bidder == bidder,
    {
        let mut k: usize = 0;
        while k < self.bids.len()
            invariant
                k <= self.bids.len(),
                self@.bids_are_distinct(),
                forall|l: int|
                    0 <= l < k ==> !((#[trigger] self.bids@[l]).window_ref.window_index == index
                        && self.bids@[l].bidder == bidder),
            decreases self.bids.len() - k,
        {
            if self.bids[k].window_ref.window_index == index && self.bids[k].bidder == bidder {
                proof {
                    self@.lemma_bid_slot(k as int);
                }
                return Some(k);
            }
            k = k + 1;
        }
        None
    }

    /// The place of the position of `user`.
    fn find_position(&self, user: Key) -> (r: Option<usize>)
        requires
            self@.positions_are_distinct(),
        ensures
            r is Some <==> self@.holds_position(user),
            r matches Some(p) ==> p == self@.position_slot(user) && p < self.positions.len()
                && self.positions[p as int].user == user,
    {
        let mut p: usize = 0;
        while p < self.positions.len()
            invariant
                p <= self.positions.len(),
                self@.positions_are_distinct(),
                forall|q: int| 0 <= q < p ==> (#[trigger] self.positions@[q]).user != user,
            decreases self.positions.len() - p,
        {
            if self.positions[p].user == user {
                proof {
                    self@.lemma_position_slot(p as int);
                }
                return Some(p);
            }
            p = p + 1;
        }
        None
    }

    /// The window with this index, if it is on record.
    pub fn get_window(&self, index: u64) -> (r: Option<AuctionWindow>)
        requires
            self@.wf(),
        ensures
            r == self@.window(index),
    {
        match self.find_window(index) {
            Some(i) => Some(self.windows[i]),
            None => None,
        }
    }

    /// The live bid of `bidder` in the window with this index, if there is one.
    pub fn get_bid(&self, index: u64, bidder: Key) -> (r: Option<Bid>)
        requires
            self@.wf(),
        ensures
            r == self@.bid(index, bidder),
    {
        match self.find_bid(index, bidder) {
            Some(k) => Some(self.bids[k]),
            None => None,
        }
    }

    /// The funds of `bidder` that the custody of the window with this index
    /// holds: the custodied balance of the live bid, and zero without one.
    pub fn custody_of(&self, index: u64, bidder: Key) -> (held: u64)
        requires
            self@.wf(),
        ensures
            held == self@.custody(index, bidder),
    {
        match self.find_bid(index, bidder) {
            Some(k) => self.bids[k].custodied_balance,
            None => 0,
        }
    }

    /// The position of `user`, if there is one.
    pub fn get_position(&self, user: Key) -> (r: Option<UserPosition>)
        requires
            self@.wf(),
        ensures
            r == self@.position(user),
    {
        match self.find_position(user) {
            Some(p) => Some(self.positions[p]),
            None => None,
        }
    }

    /// The fractions that `user` has won: what the position holds, and zero
    /// without one.
    pub fn fractions_owned(&self, user: Key) -> (owned: u64)
        requires
            self@.wf(),
        ensures
            owned == self@.owned(user),
    {
        match self.find_position(user) {
            Some(p) => self.positions[p].fractions_owned,
            None => 0,
        }
    }

    // ----- opening a window -----
    /// The fresh record of the window with this index, where one can be made
    /// at the time `now`.
    fn opening_check(&self, index: u64, now: i64) -> (r: Result<AuctionWindow, ErrorCode>)
        requires
            self@.wf(),
        ensures
            r is Ok <==> self@.opening_verdict(index, now) is None,
            r matches Ok(window) ==> window == self@.fresh_window(index),
            r matches Err(e) ==> self@.opening_verdict(index, now) == Some(e),
    {
        let current: u64 = match window_index(
            self.escrow.genesis_time,
            self.escrow.window_length,
            now,
        ) {
            Ok(current) => current,
            Err(e) => {
                return Err(e);
            },
        };
        if current != index {
            return Err(ErrorCode::WindowNotOpen);
        }
        let n: usize = self.windows.len();
        if n > 0 && self.windows[n - 1].window_index > index {
            return Err(ErrorCode::WindowNotOpen);
        }
        let closes_at: i64 = match window_closes_at(
            self.escrow.genesis_time,
            self.escrow.window_length,
            index,
        ) {
            Ok(closes_at) => closes_at,
            Err(e) => {
                return Err(e);
            },
        };
        if n > 0 && !self.windows[n - 1].settled {
            return Err(ErrorCode::NotSettled);
        }
        if self.escrow.outstanding_fractions < self.escrow.fractions_per_window {
            return Err(ErrorCode::Exhausted);
        }
        proof {
            lemma_current_window_is_open(
                self.escrow.genesis_time as int,
                self.escrow.window_length as int,
                now as int,
            );
            assert((index as int + 1) * self.escrow.window_length as int == index as int
                * self.escrow.window_length as int + self.escrow.window_length as int)
                by (nonlinear_arith);
            assert(index as int * self.escrow.window_length as int >= 0) by (nonlinear_arith)
                requires
                    index as int >= 0,
                    self.escrow.window_length as int >= 0,
            ;
        }
        let opens_at: i64 = (closes_at as i128 - self.escrow.window_length as i128) as i64;
        Ok(
            AuctionWindow {
                escrow_ref: self.escrow_ref,
                window_index: index,
                opens_at,
                closes_at,
                fractions_on_offer: self.escrow.fractions_per_window,
                highest: None,
                settled: false,
            },
        )
    }

    /// The window with this index: the one on record, or a new one where none
    /// is on record and the window can be opened at the time `now`.
    ///
    /// A new window becomes the newest on record, with the times of the
    /// schedule, the escrow's offer per window and no bid. It is made only
    /// for the window that holds `now`, only where no later window is on
    /// record and no window waits for its settlement, and only while the
    /// escrow is locked and has as many fractions outstanding as a window
    /// offers; `AuctionState::window_verdict` names the error otherwise, and
    /// the auction then stays as it is.
    pub fn get_or_open_window(&mut self, index: u64, now: i64) -> (r: Result<
        AuctionWindow,
        ErrorCode,
    >)
        requires
            old(self)@.wf(),
        ensures
            final(self)@.wf(),
            r is Ok <==> old(self)@.window_verdict(index, now) is None,
            r matches Ok(window) ==> final(self)@ == old(self)@.with_window(index) && Some(window)
                == final(self)@.window(index),
            r matches Err(e) ==> old(self)@.window_verdict(index, now) == Some(e) && final(self)@
                == old(self)@,
    {
        match self.find_window(index) {
            Some(i) => Ok(self.windows[i]),
            None => {
                if !self.escrow.is_locked() {
                    return Err(ErrorCode::EscrowClosed);
                }
                match self.opening_check(index, now) {
                    Err(e) => Err(e),
                    Ok(window) => {
                        self.windows.push(window);
                        proof {
                            old(self)@.lemma_with_window_wf(index, now);
                            assert(self@.windows =~= old(self)@.with_window(index).windows);
                        }
                        Ok(window)
                    },
                }
            },
        }
    }

    // ----- placing a bid -----
    /// Whether the bid is accepted, and where its window stands: the place of
    /// the window, and its fresh record where it is not on record yet.
    fn bid_check(&self, index: u64, bidder: Key, amount: u64, now: i64) -> (r: Result<
        (usize, Option<AuctionWindow>),
        ErrorCode,
    >)
        requires
            self@.wf(),
        ensures
            r is Ok <==> self@.bid_verdict(index, bidder, amount, now) is None,
            r matches Ok((slot, fresh)) ==> {
                &&& fresh is None <==> self@.holds_window(index)
                &&& fresh is None ==> slot == self@.window_slot(index) && slot < self.windows.len()
                &&& fresh matches Some(window) ==> window == self@.fresh_window(index) && slot
                    == self.windows.len()
            },
            r matches Err(e) ==> self@.bid_verdict(index, bidder, amount, now) == Some(e),
    {
        if !self.escrow.is_locked() {
            return Err(ErrorCode::EscrowClosed);
        }
        let current: u64 = match window_index(
            self.escrow.genesis_time,
            self.escrow.window_length,
            now,
        ) {
            Ok(current) => current,
            Err(e) => {
                return Err(e);
            },
        };
        if current != index {
            return Err(ErrorCode::WindowNotOpen);
        }
        match self.find_window(index) {
            Some(i) => {
                if self.windows[i].settled {
                    return Err(ErrorCode::WindowNotOpen);
                }
                match self.windows[i].highest {
                    Some(h) => {
                        if amount <= h.amount {
                            Err(ErrorCode::BidTooLow)
                        } else {
                            Ok((i, None))
                        }
                    },
                    None => Ok((i, None)),
                }
            },
            None => match self.opening_check(index, now) {
                Ok(window) => Ok((self.windows.len(), Some(window))),
                Err(e) => Err(e),
            },
        }
    }

    /// The ledger operations that a bid of `amount` by `bidder` calls for.
    fn bid_ops(&self, index: u64, bidder: Key, amount: u64) -> (ops: Vec<LedgerOp>)
        requires
            self@.wf(),
        ensures
            ops@ == self@.bid_ops(index, bidder, amount),
    {
        let held: u64 = self.custody_of(index, bidder);
        let mut ops: Vec<LedgerOp> = Vec::new();
        if amount > held {
            ops.push(
                LedgerOp::TransferValue {
                    from: Holder::Party(bidder),
                    to: Holder::Custody(WindowRef { escrow: self.escrow_ref, window_index: index }),
                    amount: amount - held,
                },
            );
        }
        assert(ops@ =~= self@.bid_ops(index, bidder, amount));
        ops
    }

    /// What a bid of `amount` by `bidder` into the window with this index
    /// would call for at the time `now`, without placing it.
    ///
    /// Accepted exactly where `place_bid` accepts, with the same ledger
    /// operations, and refused with the same error where it refuses.
    pub fn plan_bid(&self, index: u64, bidder: Key, amount: u64, now: i64) -> (r: Result<
        Vec<LedgerOp>,
        ErrorCode,
    >)
        requires
            self@.wf(),
        ensures
            r is Ok <==> self@.bid_verdict(index, bidder, amount, now) is None,
            r matches Ok(ops) ==> ops@ == self@.bid_ops(index, bidder, amount),
            r matches Err(e) ==> self@.bid_verdict(index, bidder, amount, now) == Some(e),
    {
        match self.bid_check(index, bidder, amount, now) {
            Err(e) => Err(e),
            Ok(_) => Ok(self.bid_ops(index, bidder, amount)),
        }
    }

    /// Places a bid of `amount` by `bidder` into the window with this index
    /// at the time `now`.
    ///
    /// The bid is accepted exactly where `AuctionState::bid_verdict` names no
    /// error: the escrow is locked, the window is the one that holds `now`
    /// and is not settled, and it has no bid yet or the amount exceeds its
    /// leading bid; a window that is not on record yet is opened first, where
    /// it can be. Then `bidder` leads the window with `amount`, the bid
    /// record of `bidder` holds the amount with a custody that is topped up
    /// to it, and the result names the one transfer that tops the custody up.
    /// A refused bid leaves the auction as it is.
    pub fn place_bid(&mut self, index: u64, bidder: Key, amount: u64, now: i64) -> (r: Result<
        Vec<LedgerOp>,
        ErrorCode,
    >)
        requires
            old(self)@.wf(),
        ensures
            final(self)@.wf(),
            r is Ok <==> old(self)@.bid_verdict(index, bidder, amount, now) is None,
            r matches Ok(ops) ==> final(self)@ == old(self)@.after_bid(index, bidder, amount)
                && ops@ == old(self)@.bid_ops(index, bidder, amount),
            r matches Err(e) ==> old(self)@.bid_verdict(index, bidder, amount, now) == Some(e)
                && final(self)@ == old(self)@,
            final(self)@.escrow.outstanding_fractions == old(self)@.escrow.outstanding_fractions,
            final(self)@.positions == old(self)@.positions,
    {
        let (slot, fresh) = match self.bid_check(index, bidder, amount, now) {
            Err(e) => {
                return Err(e);
            },
            Ok(found) => found,
        };
        let ops = self.bid_ops(index, bidder, amount);
        let ghost mid = self@.with_window(index);
        proof {
            self@.lemma_after_bid_wf(index, bidder, amount, now);
            self@.lemma_with_window_wf(index, now);
        }
        let lead = Some(HighestBid { bidder, amount });
        match fresh {
            Some(window) => {
                self.windows.push(AuctionWindow { highest: lead, ..window });
            },
            None => {
                let window = self.windows[slot];
                self.windows.set(slot, AuctionWindow { highest: lead, ..window });
            },
        }
        match self.find_bid(index, bidder) {
            Some(k) => {
                let held: u64 = self.bids[k].custodied_balance;
                let custodied_balance: u64 = if held > amount {
                    held
                } else {
                    amount
                };
                let bid = self.bids[k];
                self.bids.set(k, Bid { amount, custodied_balance, ..bid });
                assert(bid.window_ref == mid.window_ref(index)) by {
                    assert(mid.bids[k as int].window_ref.escrow == mid.escrow_ref);
                }
            },
            None => {
                self.bids.push(
                    Bid {
                        window_ref: WindowRef { escrow: self.escrow_ref, window_index: index },
                        bidder,
                        amount,
                        custodied_balance: amount,
                    },
                );
            },
        }
        proof {
            let next = mid.with_bid(index, bidder, amount);
            assert(self@.windows =~= next.windows);
            assert(self@.bids =~= next.bids);
            assert(self@ == next);
        }
        Ok(ops)
    }

    // ----- settling -----
    /// Whether the settlement is accepted, and the place of the window.
    fn settle_check(&self, index: u64, now: i64) -> (r: Result<usize, ErrorCode>)
        requires
            self@.wf(),
        ensures
            r is Ok <==> self@.settle_verdict(index, now) is None,
            r matches Ok(slot) ==> slot == self@.window_slot(index) && slot < self.windows.len(),
            r matches Err(e) ==> self@.settle_verdict(index, now) == Some(e),
    {
        if !self.escrow.is_locked() {
            return Err(ErrorCode::EscrowClosed);
        }
        let found = self.find_window(index);
        if let Some(i) = found {
            if self.windows[i].settled {
                return Err(ErrorCode::AlreadySettled);
            }
        }
        if now < self.escrow.genesis_time {
            return Err(ErrorCode::ClockSkew);
        }
        match found {
            Some(i) => {
                assert(self@.window_fits(self.windows@[i as int]));
                if self.windows[i].closes_at > now {
                    Err(ErrorCode::WindowNotClosed)
                } else {
                    Ok(i)
                }
            },
            None => match window_closes_at(
                self.escrow.genesis_time,
                self.escrow.window_length,
                index,
            ) {
                Ok(closes_at) => {
                    if closes_at > now {
                        Err(ErrorCode::WindowNotClosed)
                    } else {
                        Err(ErrorCode::NoBidsToSettle)
                    }
                },
                Err(_) => Err(ErrorCode::WindowNotClosed),
            },
        }
    }

    /// The ledger operations that the settlement of the window in place
    /// `slot` calls for.
    fn settle_ops(&self, index: u64, slot: usize) -> (ops: Vec<LedgerOp>)
        requires
            self@.wf(),
            self@.holds_window(index),
            slot == self@.window_slot(index),
            slot < self.windows.len(),
        ensures
            ops@ == self@.settle_ops(index),
    {
        let window = self.windows[slot];
        let mut ops: Vec<LedgerOp> = Vec::new();
        if let Some(h) = window.highest {
            let custody = Holder::Custody(
                WindowRef { escrow: self.escrow_ref, window_index: index },
            );
            let held: u64 = self.custody_of(index, h.bidder);
            ops.push(
                LedgerOp::TransferValue {
                    from: custody,
                    to: Holder::Party(self.escrow.depositor),
                    amount: h.amount,
                },
            );
            ops.push(
                LedgerOp::CreditFractions {
                    mint_ref: self.escrow.fraction_mint_ref,
                    from_custody: self.escrow_ref,
                    recipient: h.bidder,
                    amount: window.fractions_on_offer,
                },
            );
            if held > h.amount {
                ops.push(
                    LedgerOp::TransferValue {
                        from: custody,
                        to: Holder::Party(h.bidder),
                        amount: held - h.amount,
                    },
                );
            }
        }
        assert(ops@ =~= self@.settle_ops(index));
        ops
    }

    /// What the settlement of the window with this index would call for at
    /// the time `now`, without settling it.
    ///
    /// Accepted exactly where `settle` accepts, with the same ledger
    /// operations, and refused with the same error where it refuses.
    pub fn plan_settle(&self, index: u64, now: i64) -> (r: Result<Vec<LedgerOp>, ErrorCode>)
        requires
            self@.wf(),
        ensures
            r is Ok <==> self@.settle_verdict(index, now) is None,
            r matches Ok(ops) ==> ops@ == self@.settle_ops(index),
            r matches Err(e) ==> self@.settle_verdict(index, now) == Some(e),
    {
        match self.settle_check(index, now) {
            Err(e) => Err(e),
            Ok(slot) => Ok(self.settle_ops(index, slot)),
        }
    }

    /// Settles the window with this index at the time `now`.
    ///
    /// Accepted exactly where `AuctionState::settle_verdict` names no error:
    /// the escrow is locked, and the window is on record, not settled yet,
    /// and has reached its closing time. The window is then settled. Without
    /// a bid nothing else changes and no ledger operation is called for. With
    /// a leading bid the fractions on offer leave the outstanding supply and
    /// are credited to the position of the leader, the bid record of the
    /// leader is gone, and the result names the payout: the amount of the
    /// leading bid to the depositor, the fractions to the leader, and what
    /// the custody held of the leader beyond the amount back to the leader.
    /// A refused settlement leaves the auction as it is.
    pub fn settle(&mut self, index: u64, now: i64) -> (r: Result<Vec<LedgerOp>, ErrorCode>)
        requires
            old(self)@.wf(),
        ensures
            final(self)@.wf(),
            r is Ok <==> old(self)@.settle_verdict(index, now) is None,
            r matches Ok(ops) ==> final(self)@ == old(self)@.after_settle(index) && ops@ == old(self)@.settle_ops(index),
            r matches Err(e) ==> old(self)@.settle_verdict(index, now) == Some(e) && final(self)@
                == old(self)@,
            final(self)@.escrow.outstanding_fractions <= old(self)@.escrow.outstanding_fractions,
    {
        let slot: usize = match self.settle_check(index, now) {
            Err(e) => {
                return Err(e);
            },
            Ok(slot) => slot,
        };
        let ops = self.settle_ops(index, slot);
        proof {
            self@.lemma_after_settle_wf(index, now);
            self@.lemma_unsettled_is_newest(index);
        }
        let window = self.windows[slot];
        self.windows.set(slot, AuctionWindow { settled: true, ..window });
        if let Some(h) = window.highest {
            let offer: u64 = window.fractions_on_offer;
            proof {
                old(self)@.lemma_leader_bid(index);
            }
            if let Some(k) = self.find_bid(index, h.bidder) {
                self.bids.remove(k);
            }
            self.escrow.outstanding_fractions = self.escrow.outstanding_fractions - offer;
            match self.find_position(h.bidder) {
                Some(p) => {
                    let position = self.positions[p];
                    proof {
                        lemma_total_owned_bounds(old(self)@.positions, p as int);
                    }
                    self.positions.set(
                        p,
                        UserPosition {
                            fractions_owned: position.fractions_owned + offer,
                            ..position
                        },
                    );
                },
                None => {
                    self.positions.push(
                        UserPosition {
                            escrow_ref: self.escrow_ref,
                            user: h.bidder,
                            fractions_owned: offer,
                        },
                    );
                },
            }
        }
        proof {
            let next = old(self)@.after_settle(index);
            assert(self@.windows =~= next.windows);
            assert(self@.bids =~= next.bids);
            assert(self@.positions =~= next.positions);
            assert(self@ == next);
        }
        Ok(ops)
    }

    // ----- reclaiming a losing bid -----
    /// Whether the reclaim is accepted, and the place of the bid.
    fn reclaim_check(&self, index: u64, bidder: Key) -> (r: Result<usize, ErrorCode>)
        requires
            self@.wf(),
        ensures
            r is Ok <==> self@.reclaim_verdict(index, bidder) is None,
            r matches Ok(k) ==> k == self@.bid_slot(index, bidder) && k < self.bids.len(),
            r matches Err(e) ==> self@.reclaim_verdict(index, bidder) == Some(e),
    {
        if !self.escrow.is_locked() {
            return Err(ErrorCode::EscrowClosed);
        }
        let k: usize = match self.find_bid(index, bidder) {
            Some(k) => k,
            None => {
                return Err(ErrorCode::NotBidder);
            },
        };
        match self.find_window(index) {
            Some(i) => {
                if self.windows[i].settled {
                    Ok(k)
                } else {
                    Err(ErrorCode::NotSettled)
                }
            },
            None => Err(ErrorCode::NotSettled),
        }
    }

    /// The ledger operations that the reclaim calls for.
    fn reclaim_ops(&self, index: u64, bidder: Key) -> (ops: Vec<LedgerOp>)
        requires
            self@.wf(),
        ensures
            ops@ == self@.reclaim_ops(index, bidder),
    {
        let held: u64 = self.custody_of(index, bidder);
        let mut ops: Vec<LedgerOp> = Vec::new();
        if held > 0 {
            ops.push(
                LedgerOp::TransferValue {
                    from: Holder::Custody(
                        WindowRef { escrow: self.escrow_ref, window_index: index },
                    ),
                    to: Holder::Party(bidder),
                    amount: held,
                },
            );
        }
        assert(ops@ =~= self@.reclaim_ops(index, bidder));
        ops
    }

    /// What the reclaim of the bid of `bidder` in the window with this index
    /// would call for, without carrying it out.
    ///
    /// Accepted exactly where `reclaim_bid` accepts, with the same ledger
    /// operations, and refused with the same error where it refuses.
    pub fn plan_reclaim(&self, index: u64, bidder: Key) -> (r: Result<Vec<LedgerOp>, ErrorCode>)
        requires
            self@.wf(),
        ensures
            r is Ok <==> self@.reclaim_verdict(index, bidder) is None,
            r matches Ok(ops) ==> ops@ == self@.reclaim_ops(index, bidder),
            r matches Err(e) ==> self@.reclaim_verdict(index, bidder) == Some(e),
    {
        match self.reclaim_check(index, bidder) {
            Err(e) => Err(e),
            Ok(_) => Ok(self.reclaim_ops(index, bidder)),
        }
    }

    /// Gives a bidder that did not win the window with this index its funds back.
    ///
    /// Accepted exactly where `AuctionState::reclaim_verdict` names no error:
    /// the escrow is locked, `bidder` has a live bid in the window, and the
    /// window has been settled. The bid record is then gone, and the result
    /// names the transfer of all that the custody held of `bidder` back to
    /// `bidder`. A refused reclaim leaves the auction as it is.
    pub fn reclaim_bid(&mut self, index: u64, bidder: Key) -> (r: Result<Vec<LedgerOp>, ErrorCode>)
        requires
            old(self)@.wf(),
        ensures
            final(self)@.wf(),
            r is Ok <==> old(self)@.reclaim_verdict(index, bidder) is None,
            r matches Ok(ops) ==> final(self)@ == old(self)@.after_reclaim(index, bidder) && ops@
                == old(self)@.reclaim_ops(index, bidder),
            r matches Err(e) ==> old(self)@.reclaim_verdict(index, bidder) == Some(e) && final(self)@ == old(self)@,
            final(self)@.escrow == old(self)@.escrow,
            final(self)@.positions == old(self)@.positions,
            final(self)@.windows == old(self)@.windows,
    {
        let k: usize = match self.reclaim_check(index, bidder) {
            Err(e) => {
                return Err(e);
            },
            Ok(k) => k,
        };
        let ops = self.reclaim_ops(index, bidder);
        proof {
            self@.lemma_after_reclaim_wf(index, bidder);
        }
        self.bids.remove(k);
        assert(self@.bids =~= old(self)@.after_reclaim(index, bidder).bids);
        Ok(ops)
    }

    // ----- opening a position -----
    /// Whether a position can be opened for `user`.
    ///
    /// Accepted exactly where `open_position` accepts, and refused with the
    /// same error where it refuses.
    pub fn plan_position(&self, user: Key) -> (r: Result<(), ErrorCode>)
        requires
            self@.wf(),
        ensures
            r is Ok <==> self@.position_verdict(user) is None,
            r matches Err(e) ==> self@.position_verdict(user) == Some(e),
    {
        if !self.escrow.is_locked() {
            Err(ErrorCode::EscrowClosed)
        } else if self.find_position(user).is_some() {
            Err(ErrorCode::InvalidParams)
        } else {
            Ok(())
        }
    }

    /// Opens a position of `user` that owns nothing.
    ///
    /// Refused with `EscrowClosed` where the escrow is closed, and with
    /// `InvalidParams` where `user` has a position already; the auction then
    /// stays as it is.
    pub fn open_position(&mut self, user: Key) -> (r: Result<(), ErrorCode>)
        requires
            old(self)@.wf(),
        ensures
            final(self)@.wf(),
            r is Ok <==> old(self)@.position_verdict(user) is None,
            r is Ok ==> final(self)@ == old(self)@.with_position(user),
            r matches Err(e) ==> old(self)@.position_verdict(user) == Some(e) && final(self)@
                == old(self)@,
            final(self)@.escrow == old(self)@.escrow,
    {
        match self.plan_position(user) {
            Err(e) => Err(e),
            Ok(()) => {
                proof {
                    self@.lemma_with_position_wf(user);
                }
                self.positions.push(
                    UserPosition { escrow_ref: self.escrow_ref, user, fractions_owned: 0 },
                );
                assert(self@.positions =~= old(self)@.with_position(user).positions);
                Ok(())
            },
        }
    }

    /// The position of `user`: the one on record, or a new one that owns
    /// nothing where none is on record.
    ///
    /// Refused with `EscrowClosed` where none is on record and the escrow is
    /// closed; the auction then stays as it is. What a position owns changes
    /// only by a settlement.
    pub fn upsert_position(&mut self, user: Key) -> (r: Result<UserPosition, ErrorCode>)
        requires
            old(self)@.wf(),
        ensures
            final(self)@.wf(),
            r is Ok <==> old(self)@.upsert_verdict(user) is None,
            r matches Ok(position) ==> final(self)@ == old(self)@.with_upserted_position(user)
                && Some(position) == final(self)@.position(user),
            r matches Err(e) ==> old(self)@.upsert_verdict(user) == Some(e) && final(self)@
                == old(self)@,
            final(self)@.escrow == old(self)@.escrow,
    {
        match self.find_position(user) {
            Some(p) => Ok(self.positions[p]),
            None => match self.open_position(user) {
                Ok(()) => {
                    proof {
                        old(self)@.lemma_with_position_wf(user);
                    }
                    Ok(UserPosition { escrow_ref: self.escrow_ref, user, fractions_owned: 0 })
                },
                Err(e) => Err(e),
            },
        }
    }

    // ----- closing the escrow -----
    /// Whether `caller` can close the escrow.
    fn close_check(&self, caller: Key) -> (r: Result<(), ErrorCode>)
        requires
            self@.wf(),
        ensures
            r is Ok <==> self@.close_verdict(caller) is None,
            r matches Err(e) ==> self@.close_verdict(caller) == Some(e),
    {
        if !self.escrow.is_locked() {
            return Err(ErrorCode::EscrowClosed);
        }
        if caller != self.escrow.depositor {
            return Err(ErrorCode::NotDepositor);
        }
        let n: usize = self.windows.len();
        if n > 0 && !self.windows[n - 1].settled {
            return Err(ErrorCode::NotSettled);
        }
        if self.escrow.outstanding_fractions != self.escrow.total_fractions {
            return Err(ErrorCode::AlreadySettled);
        }
        Ok(())
    }

    /// The ledger operations that closing the escrow calls for.
    fn close_ops(&self) -> (ops: Vec<LedgerOp>)
        ensures
            ops@ == self@.close_ops(),
    {
        let mut ops: Vec<LedgerOp> = Vec::new();
        ops.push(
            LedgerOp::CreditFractions {
                mint_ref: self.escrow.fraction_mint_ref,
                from_custody: self.escrow_ref,
                recipient: self.escrow.depositor,
                amount: self.escrow.total_fractions,
            },
        );
        ops.push(
            LedgerOp::ReleaseAsset {
                depositor: self.escrow.depositor,
                asset_ref: self.escrow.asset_ref,
            },
        );
        assert(ops@ =~= self@.close_ops());
        ops
    }

    /// What closing the escrow by `caller` would call for, without closing it.
    ///
    /// Accepted exactly where `close` accepts, with the same ledger
    /// operations, and refused with the same error where it refuses.
    pub fn plan_close(&self, caller: Key) -> (r: Result<Vec<LedgerOp>, ErrorCode>)
        requires
            self@.wf(),
        ensures
            r is Ok <==> self@.close_verdict(caller) is None,
            r matches Ok(ops) ==> ops@ == self@.close_ops(),
            r matches Err(e) ==> self@.close_verdict(caller) == Some(e),
    {
        match self.close_check(caller) {
            Err(e) => Err(e),
            Ok(()) => Ok(self.close_ops()),
        }
    }

    /// Closes the escrow for its depositor.
    ///
    /// Accepted exactly where `AuctionState::close_verdict` names no error:
    /// the escrow is locked, `caller` is its depositor, no window waits for
    /// its settlement, and the whole supply is outstanding. The escrow is
    /// then closed and no window is left on record; no bid was on record and
    /// no user owned a fraction. The result names the return of the whole
    /// supply and of the asset to the depositor. A refused close leaves the
    /// auction as it is.
    pub fn close(&mut self, caller: Key) -> (r: Result<Vec<LedgerOp>, ErrorCode>)
        requires
            old(self)@.wf(),
        ensures
            final(self)@.wf(),
            r is Ok <==> old(self)@.close_verdict(caller) is None,
            r matches Ok(ops) ==> final(self)@ == old(self)@.after_close() && ops@ == old(self)@.close_ops() && old(self)@.bids.len() == 0,
            r matches Err(e) ==> old(self)@.close_verdict(caller) == Some(e) && final(self)@
                == old(self)@,
            final(self)@.escrow.outstanding_fractions == old(self)@.escrow.outstanding_fractions,
            final(self)@.positions == old(self)@.positions,
    {
        match self.close_check(caller) {
            Err(e) => {
                return Err(e);
            },
            Ok(()) => {},
        }
        let ops = self.close_ops();
        proof {
            self@.lemma_after_close_wf(caller);
        }
        self.escrow.status = EscrowStatus::Closed;
        self.windows.clear();
        self.bids.clear();
        proof {
            let next = old(self)@.after_close();
            assert(self@.windows =~= next.windows);
            assert(self@.bids =~= next.bids);
        }
        Ok(ops)
    }
}

} // verus!
