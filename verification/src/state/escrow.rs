//! The escrow record.

use vstd::prelude::*;
use crate::error::ErrorCode;
use crate::key::Key;

verus! {

/// Whether the asset of an escrow is still locked.
#[derive(Clone, Copy, Debug, PartialEq, Eq, Hash, Structural)]
pub enum EscrowStatus {
    /// The asset is locked and the schedule runs.
    Locked,
    /// The depositor took the asset back.
    Closed,
}

/// Binds a locked asset to its fraction supply and to its schedule.
#[derive(Clone, Copy, Debug, PartialEq, Eq, Structural)]
pub struct Escrow {
    /// Who locked the asset, and who receives the winning bids.
    pub depositor: Key,
    /// The locked asset on the outside ledger.
    pub asset_ref: Key,
    /// The fraction token on the outside ledger.
    pub fraction_mint_ref: Key,
    /// The supply minted when the asset was locked.
    pub total_fractions: u64,
    /// The fractions that no auction has handed out yet.
    pub outstanding_fractions: u64,
    /// The fractions that one window offers.
    pub fractions_per_window: u64,
    /// The time of the lock, in seconds: the start of window 0.
    pub genesis_time: i64,
    /// The length of every window, in seconds.
    pub window_length: u64,
    /// Whether the asset is still locked.
    pub status: EscrowStatus,
}

impl Escrow {
    /// The bounds that every escrow record keeps: a window offers at least one
    /// fraction and no more than the supply, no more fractions are outstanding
    /// than were minted, and a window lasts at least a second.
    pub open spec fn wf(self) -> bool {
        &&& 1 <= self.fractions_per_window <= self.total_fractions
        &&& self.outstanding_fractions <= self.total_fractions
        &&& self.window_length >= 1
    }

    /// Whether the asset is still locked.
    pub fn is_locked(&self) -> (locked: bool)
        ensures
            locked == (self.status == EscrowStatus::Locked),
    {
        match self.status {
            EscrowStatus::Locked => true,
            EscrowStatus::Closed => false,
        }
    }

}

/// What a new escrow is made from.
#[derive(Clone, Copy, Debug, PartialEq, Eq, Structural)]
pub struct EscrowParams {
    /// Who locks the asset.
    pub depositor: Key,
    /// The asset to lock.
    pub asset_ref: Key,
    /// The fraction token to mint.
    pub fraction_mint_ref: Key,
    /// The supply to mint.
    pub total_fractions: u64,
    /// The fractions that one window offers.
    pub fractions_per_window: u64,
    /// The time at which window 0 opens, in seconds.
    pub genesis_time: i64,
    /// The length of every window, in seconds.
    pub window_length: u64,
}

impl EscrowParams {
    /// Whether an escrow can be made from these: the supply, the offer per
    /// window and the window length are not zero, and a window offers no more
    /// than the supply.
    pub open spec fn valid(&self) -> bool {
        &&& self.total_fractions > 0
        &&& self.fractions_per_window > 0
        &&& self.fractions_per_window <= self.total_fractions
        &&& self.window_length > 0
    }

    /// The escrow record at the time of the lock: locked, with the whole
    /// supply outstanding.
    pub open spec fn spec_escrow(&self) -> Escrow {
        Escrow {
            depositor: self.depositor,
            asset_ref: self.asset_ref,
            fraction_mint_ref: self.fraction_mint_ref,
            total_fractions: self.total_fractions,
            outstanding_fractions: self.total_fractions,
            fractions_per_window: self.fractions_per_window,
            genesis_time: self.genesis_time,
            window_length: self.window_length,
            status: EscrowStatus::Locked,
        }
    }

    /// Accepts the parameters from which an escrow can be made, and refuses
    /// all others with `InvalidParams`.
    pub fn validate(&self) -> (r: Result<(), ErrorCode>)
        ensures
            r is Ok <==> self.valid(),
            r matches Err(e) ==> e == ErrorCode::InvalidParams,
    {
        if self.total_fractions == 0 || self.fractions_per_window == 0 || self.window_length == 0
            || self.fractions_per_window > self.total_fractions {
            Err(ErrorCode::InvalidParams)
        } else {
            Ok(())
        }
    }

    /// The escrow record at the time of the lock.
    #[verifier::when_used_as_spec(spec_escrow)]
    pub fn escrow(&self) -> (escrow: Escrow)
        ensures
            escrow == self.spec_escrow(),
            self.valid() ==> escrow.wf(),
    {
        Escrow {
            depositor: self.depositor,
            asset_ref: self.asset_ref,
            fraction_mint_ref: self.fraction_mint_ref,
            total_fractions: self.total_fractions,
            outstanding_fractions: self.total_fractions,
            fractions_per_window: self.fractions_per_window,
            genesis_time: self.genesis_time,
            window_length: self.window_length,
            status: EscrowStatus::Locked,
        }
    }
}

} // verus!
