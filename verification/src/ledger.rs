//! The vocabulary of the outside ledger.
//!
//! The engine moves neither value nor fractions itself. Every accepted command
//! names the ledger operations that it calls for, in the order in which they are
//! to be performed; the caller performs them and commits the command only when
//! all of them went through.

use vstd::prelude::*;
use crate::error::ErrorCode;
use crate::key::{EscrowRef, Key, WindowRef};

verus! {

/// Who holds value on the ledger.
#[derive(Clone, Copy, Debug, PartialEq, Eq, Hash, Structural)]
pub enum Holder {
    /// A participant, holding its own funds.
    Party(Key),
    /// The custody of bid funds of one auction window.
    Custody(WindowRef),
}

/// One operation on the outside ledger.
#[derive(Clone, Copy, Debug, PartialEq, Eq, Hash, Structural)]
pub enum LedgerOp {
    /// Take the asset of `depositor` into exclusive custody.
    LockAsset { depositor: Key, asset_ref: Key },
    /// Mint `amount` fractions into the fraction custody of the escrow.
    MintFractions { mint_ref: Key, to_custody: EscrowRef, amount: u64 },
    /// Move `amount` fractions from the fraction custody of the escrow to `recipient`.
    CreditFractions { mint_ref: Key, from_custody: EscrowRef, recipient: Key, amount: u64 },
    /// Move `amount` of value from one holder to another.
    TransferValue { from: Holder, to: Holder, amount: u64 },
    /// Hand the locked asset back to `depositor`.
    ReleaseAsset { depositor: Key, asset_ref: Key },
}

impl LedgerOp {
    /// The error kind under which a refusal of this operation by the ledger
    /// surfaces, if the ledger can refuse it at all.
    pub open spec fn spec_failure_code(self) -> Option<ErrorCode> {
        match self {
            LedgerOp::LockAsset { .. } => Some(ErrorCode::AssetUnavailable),
            LedgerOp::MintFractions { .. } => None,
            LedgerOp::CreditFractions { .. } => Some(ErrorCode::LedgerInsufficient),
            LedgerOp::TransferValue { .. } => Some(ErrorCode::ValueInsufficient),
            LedgerOp::ReleaseAsset { .. } => None,
        }
    }

    /// The error kind under which a refusal of this operation by the ledger
    /// surfaces: `AssetUnavailable` for a lock, `LedgerInsufficient` for a
    /// credit of fractions, `ValueInsufficient` for a transfer of value, and
    /// none for the two operations that the ledger never refuses.
    #[verifier::when_used_as_spec(spec_failure_code)]
    pub fn failure_code(self) -> (code: Option<ErrorCode>)
        ensures
            code == self.spec_failure_code(),
    {
        match self {
            LedgerOp::LockAsset { .. } => Some(ErrorCode::AssetUnavailable),
            LedgerOp::MintFractions { .. } => None,
            LedgerOp::CreditFractions { .. } => Some(ErrorCode::LedgerInsufficient),
            LedgerOp::TransferValue { .. } => Some(ErrorCode::ValueInsufficient),
            LedgerOp::ReleaseAsset { .. } => None,
        }
    }
}

} // verus!
