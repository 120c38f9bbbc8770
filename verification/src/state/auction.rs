//! The records of the auction: windows and bids.

use vstd::prelude::*;
use crate::key::{EscrowRef, Key, WindowRef};

verus! {

/// Where a window stands at a given time.
#[derive(Clone, Copy, Debug, PartialEq, Eq, Hash, Structural)]
pub enum Phase {
    /// The window accepts bids.
    Open,
    /// The window has reached its closing time and waits for its settlement.
    ClosedUnsettled,
    /// The window has been settled.
    Settled,
}

/// The bid that leads a window.
#[derive(Clone, Copy, Debug, PartialEq, Eq, Hash, Structural)]
pub struct HighestBid {
    /// Who placed it.
    pub bidder: Key,
    /// The amount bid.
    pub amount: u64,
}

/// One window of the schedule of an escrow.
#[derive(Clone, Copy, Debug, PartialEq, Eq, Structural)]
pub struct AuctionWindow {
    /// The escrow whose schedule the window belongs to.
    pub escrow_ref: EscrowRef,
    /// The window's place in the schedule.
    pub window_index: u64,
    /// The first second at which the window accepts bids.
    pub opens_at: i64,
    /// The first second at which it no longer does.
    pub closes_at: i64,
    /// The fractions that the winner receives.
    pub fractions_on_offer: u64,
    /// The leading bid, if there is any bid.
    pub highest: Option<HighestBid>,
    /// Whether the window has been settled.
    pub settled: bool,
}

impl AuctionWindow {
    /// Where the window stands at the time `now`.
    pub open spec fn spec_phase(&self, now: i64) -> Phase {
        if self.settled {
            Phase::Settled
        } else if now < self.closes_at {
            Phase::Open
        } else {
            Phase::ClosedUnsettled
        }
    }

    /// Where the window stands at the time `now`: settled once it has been
    /// settled, open before its closing time, closed and unsettled from then on.
    #[verifier::when_used_as_spec(spec_phase)]
    pub fn phase(&self, now: i64) -> (phase: Phase)
        ensures
            phase == self.spec_phase(now),
    {
        if self.settled {
            Phase::Settled
        } else if now < self.closes_at {
            Phase::Open
        } else {
            Phase::ClosedUnsettled
        }
    }

    /// Who leads the window, if there is any bid.
    pub open spec fn spec_highest_bidder(&self) -> Option<Key> {
        match self.highest {
            Some(h) => Some(h.bidder),
            None => None,
        }
    }

    /// Who leads the window, if there is any bid.
    #[verifier::when_used_as_spec(spec_highest_bidder)]
    pub fn highest_bidder(&self) -> (bidder: Option<Key>)
        ensures
            bidder == self.spec_highest_bidder(),
    {
        match self.highest {
            Some(h) => Some(h.bidder),
            None => None,
        }
    }

    /// The amount of the leading bid, if there is any bid.
    pub open spec fn spec_highest_bid_amount(&self) -> Option<u64> {
        match self.highest {
            Some(h) => Some(h.amount),
            None => None,
        }
    }

    /// The amount of the leading bid, if there is any bid.
    #[verifier::when_used_as_spec(spec_highest_bid_amount)]
    pub fn highest_bid_amount(&self) -> (amount: Option<u64>)
        ensures
            amount == self.spec_highest_bid_amount(),
    {
        match self.highest {
            Some(h) => Some(h.amount),
            None => None,
        }
    }

    /// The name of the window.
    pub open spec fn spec_window_ref(&self) -> WindowRef {
        WindowRef { escrow: self.escrow_ref, window_index: self.window_index }
    }

    /// The name of the window.
    #[verifier::when_used_as_spec(spec_window_ref)]
    pub fn window_ref(&self) -> (r: WindowRef)
        ensures
            r == self.spec_window_ref(),
    {
        WindowRef { escrow: self.escrow_ref, window_index: self.window_index }
    }
}

/// The live bid of one bidder in one window.
#[derive(Clone, Copy, Debug, PartialEq, Eq, Hash, Structural)]
pub struct Bid {
    /// The window that the bid was placed into.
    pub window_ref: WindowRef,
    /// Who placed it.
    pub bidder: Key,
    /// The amount bid.
    pub amount: u64,
    /// The funds of the bidder that the window's custody holds: never less
    /// than the amount.
    pub custodied_balance: u64,
}

impl Bid {
    /// What the custody holds beyond the amount bid.
    pub open spec fn spec_buffer(&self) -> u64 {
        if self.custodied_balance >= self.amount {
            (self.custodied_balance - self.amount) as u64
        } else {
            0
        }
    }

    /// What the custody holds beyond the amount bid.
    #[verifier::when_used_as_spec(spec_buffer)]
    pub fn buffer(&self) -> (buffer: u64)
        ensures
            buffer == self.spec_buffer(),
    {
        if self.custodied_balance >= self.amount {
            self.custodied_balance - self.amount
        } else {
            0
        }
    }
}

} // verus!
