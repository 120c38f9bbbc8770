//! The error kinds under which a command is refused.

use vstd::prelude::*;

verus! {

/// Why a command was refused.
#[derive(Clone, Copy, Debug, PartialEq, Eq, Hash, Structural)]
pub enum ErrorCode {
    /// A parameter is out of range, names nothing, or makes the arithmetic overflow.
    InvalidParams,
    /// The caller is not the escrow's depositor.
    NotDepositor,
    /// The caller holds no bid in the window.
    NotBidder,
    /// The window does not accept bids at this time.
    WindowNotOpen,
    /// The window has not reached its closing time.
    WindowNotClosed,
    /// The window has been settled before.
    AlreadySettled,
    /// A window that has to be settled first is not.
    NotSettled,
    /// The escrow has fewer fractions left than one window offers.
    Exhausted,
    /// The escrow is closed.
    EscrowClosed,
    /// The bid does not exceed the highest bid of the window.
    BidTooLow,
    /// The window holds no bid: there is nothing to settle.
    NoBidsToSettle,
    /// The fraction custody holds less than was to be credited.
    LedgerInsufficient,
    /// The payer holds less value than was to be moved.
    ValueInsufficient,
    /// The asset cannot be taken into exclusive custody.
    AssetUnavailable,
    /// The time given lies before the escrow's genesis.
    ClockSkew,
    /// The escrow could not be reserved for the command in time.
    Timeout,
    /// Another command changed the escrow in between.
    VersionConflict,
}

/// The families of error kinds.
#[derive(Clone, Copy, Debug, PartialEq, Eq, Hash, Structural)]
pub enum ErrorClass {
    /// The command itself is at fault.
    Input,
    /// The caller may not do this.
    Authorization,
    /// The escrow or the window is not in the state that the command needs.
    State,
    /// The offer is not good enough, or there is none.
    Economics,
    /// The ledger or the clock stands in the way.
    External,
    /// Another command was in the way; the caller may try again.
    Concurrency,
}

impl ErrorCode {
    /// The family of this error kind.
    pub open spec fn spec_class(self) -> ErrorClass {
        match self {
            ErrorCode::InvalidParams => ErrorClass::Input,
            ErrorCode::NotDepositor | ErrorCode::NotBidder => ErrorClass::Authorization,
            ErrorCode::WindowNotOpen
            | ErrorCode::WindowNotClosed
            | ErrorCode::AlreadySettled
            | ErrorCode::NotSettled
            | ErrorCode::Exhausted
            | ErrorCode::EscrowClosed => ErrorClass::State,
            ErrorCode::BidTooLow | ErrorCode::NoBidsToSettle => ErrorClass::Economics,
            ErrorCode::LedgerInsufficient
            | ErrorCode::ValueInsufficient
            | ErrorCode::AssetUnavailable
            | ErrorCode::ClockSkew => ErrorClass::External,
            ErrorCode::Timeout | ErrorCode::VersionConflict => ErrorClass::Concurrency,
        }
    }

    /// The family of this error kind.
    #[verifier::when_used_as_spec(spec_class)]
    pub fn class(self) -> (class: ErrorClass)
        ensures
            class == self.spec_class(),
    {
        match self {
            ErrorCode::InvalidParams => ErrorClass::Input,
            ErrorCode::NotDepositor | ErrorCode::NotBidder => ErrorClass::Authorization,
            ErrorCode::WindowNotOpen
            | ErrorCode::WindowNotClosed
            | ErrorCode::AlreadySettled
            | ErrorCode::NotSettled
            | ErrorCode::Exhausted
            | ErrorCode::EscrowClosed => ErrorClass::State,
            ErrorCode::BidTooLow | ErrorCode::NoBidsToSettle => ErrorClass::Economics,
            ErrorCode::LedgerInsufficient
            | ErrorCode::ValueInsufficient
            | ErrorCode::AssetUnavailable
            | ErrorCode::ClockSkew => ErrorClass::External,
            ErrorCode::Timeout | ErrorCode::VersionConflict => ErrorClass::Concurrency,
        }
    }

    /// Whether the caller may simply send the command again: true of the
    /// concurrency errors and of no other.
    pub fn is_retryable(self) -> (retry: bool)
        ensures
            retry == (self.spec_class() == ErrorClass::Concurrency),
            retry == (self == ErrorCode::Timeout || self == ErrorCode::VersionConflict),
    {
        match self {
            ErrorCode::Timeout | ErrorCode::VersionConflict => true,
            _ => false,
        }
    }
}

} // verus!
