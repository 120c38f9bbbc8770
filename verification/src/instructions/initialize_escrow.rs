//! The command that makes an escrow.

use vstd::prelude::*;
use crate::error::ErrorCode;
use crate::instructions::Receipt;
use crate::key::Key;
use crate::ledger::LedgerOp;
use crate::state::escrow::EscrowParams;
use crate::store::{Store, StoreState};

verus! {

/// Locks the asset of `depositor`, mints the supply of fractions against it,
/// and starts the schedule when the command arrives.
#[derive(Clone, Copy, Debug, PartialEq, Eq, Structural)]
pub struct InitializeEscrow {
    /// Who locks the asset.
    pub depositor: Key,
    /// The asset to lock.
    pub asset_ref: Key,
    /// The fraction token to mint.
    pub fraction_mint_ref: Key,
    /// The supply to mint.
    pub total_fractions: u64,
    /// The fractions that one window offers.
    pub fractions_per_window: u64,
    /// The length of every window, in seconds.
    pub window_length: u64,
}

impl InitializeEscrow {
    /// The parameters of the escrow that the command makes at the time `now`.
    pub open spec fn spec_params(&self, now: i64) -> EscrowParams {
        EscrowParams {
            depositor: self.depositor,
            asset_ref: self.asset_ref,
            fraction_mint_ref: self.fraction_mint_ref,
            total_fractions: self.total_fractions,
            fractions_per_window: self.fractions_per_window,
            genesis_time: now,
            window_length: self.window_length,
        }
    }

    /// Whether the command can make an escrow: the supply, the offer per
    /// window and the window length are not zero, and a window offers no more
    /// than the supply.
    pub open spec fn valid(&self) -> bool {
        &&& self.total_fractions > 0
        &&& self.fractions_per_window > 0
        &&& self.fractions_per_window <= self.total_fractions
        &&& self.window_length > 0
    }

    /// The parameters of the escrow that the command makes at the time
    /// `now`: those of the command, with `now` as the genesis time.
    #[verifier::when_used_as_spec(spec_params)]
    pub fn params(&self, now: i64) -> (params: EscrowParams)
        ensures
            params == self.spec_params(now),
            params.valid() == self.valid(),
    {
        EscrowParams {
            depositor: self.depositor,
            asset_ref: self.asset_ref,
            fraction_mint_ref: self.fraction_mint_ref,
            total_fractions: self.total_fractions,
            fractions_per_window: self.fractions_per_window,
            genesis_time: now,
            window_length: self.window_length,
        }
    }

    /// Accepts the commands that can make an escrow, and refuses all others
    /// with `InvalidParams`: those with a supply, an offer per window or a
    /// window length of zero, and those that offer more per window than the
    /// supply.
    pub fn validate_params(&self) -> (r: Result<(), ErrorCode>)
        ensures
            r is Ok <==> self.valid(),
            r matches Err(e) ==> e == ErrorCode::InvalidParams,
    {
        if self.total_fractions == 0 || self.fractions_per_window == 0 || self.window_length == 0
            || self.fractions_per_window > self.total_fractions {
            Err(ErrorCode::InvalidParams)
        } else {
            Ok(())
        }
    }
}

impl StoreState {
    /// Why no escrow is made, or `None` where one is.
    pub open spec fn initialize_escrow_verdict(self, args: InitializeEscrow, now: i64) -> Option<
        ErrorCode,
    > {
        self.create_verdict(args.spec_params(now))
    }

    /// The store with the new escrow; no other escrow changes.
    pub open spec fn after_initialize_escrow(self, args: InitializeEscrow, now: i64) -> StoreState {
        self.after_create(args.spec_params(now))
    }

    /// The ledger operations that make the escrow.
    pub open spec fn initialize_escrow_ops(self, args: InitializeEscrow, now: i64) -> Seq<
        LedgerOp,
    > {
        self.create_ops(args.spec_params(now))
    }
}

/// Whether the command is accepted at the time `now`, and what it calls for.
///
/// Accepted exactly where `handler` accepts, with the same receipt, and
/// refused with the same error where it refuses.
pub fn plan(store: &Store, args: &InitializeEscrow, now: i64) -> (r: Result<Receipt, ErrorCode>)
    requires
        store@.wf(),
    ensures
        r is Ok <==> store@.initialize_escrow_verdict(*args, now) is None,
        r matches Ok(receipt) ==> receipt.escrow_ref == store@.next_ref() && receipt.ops@
            == store@.initialize_escrow_ops(*args, now),
        r matches Err(e) ==> store@.initialize_escrow_verdict(*args, now) == Some(e),
{
    let params = args.params(now);
    match store.plan_create(&params) {
        Ok(ops) => Ok(Receipt { escrow_ref: store.next_ref(), ops }),
        Err(e) => Err(e),
    }
}

/// Makes the escrow at the time `now`.
///
/// Refused with `InvalidParams` where `validate_params` refuses the command
/// or the store has no place left, and with `AssetUnavailable` where a locked escrow has the same depositor
/// and asset; the store then stays as it is. The new escrow is locked, its
/// schedule starts at `now`, and its whole supply is outstanding. The receipt
/// holds its reference and names the lock of the asset and the mint of the
/// supply into the fraction custody. No other escrow changes.
pub fn handler(store: &mut Store, args: &InitializeEscrow, now: i64) -> (r: Result<
    Receipt,
    ErrorCode,
>)
    requires
        old(store)@.wf(),
    ensures
        final(store)@.wf(),
        r is Ok <==> old(store)@.initialize_escrow_verdict(*args, now) is None,
        r matches Ok(receipt) ==> final(store)@ == old(store)@.after_initialize_escrow(*args, now)
            && receipt.escrow_ref == old(store)@.next_ref() && receipt.ops@ == old(store)@.initialize_escrow_ops(*args, now),
        r matches Err(e) ==> old(store)@.initialize_escrow_verdict(*args, now) == Some(e) && final(store)@ == old(store)@,
{
    let params = args.params(now);
    let ops = match store.plan_create(&params) {
        Ok(ops) => ops,
        Err(e) => {
            return Err(e);
        },
    };
    match store.create_escrow(&params) {
        Ok(escrow_ref) => Ok(Receipt { escrow_ref, ops }),
        Err(e) => Err(e),
    }
}

} // verus!
