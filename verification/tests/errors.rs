use ricks::error::{ErrorClass, ErrorCode};
use ricks::key::{EscrowRef, Key, WindowRef};
use ricks::ledger::{Holder, LedgerOp};

fn all_codes() -> Vec<ErrorCode> {
    vec![
        ErrorCode::InvalidParams,
        ErrorCode::NotDepositor,
        ErrorCode::NotBidder,
        ErrorCode::WindowNotOpen,
        ErrorCode::WindowNotClosed,
        ErrorCode::AlreadySettled,
        ErrorCode::NotSettled,
        ErrorCode::Exhausted,
        ErrorCode::EscrowClosed,
        ErrorCode::BidTooLow,
        ErrorCode::NoBidsToSettle,
        ErrorCode::LedgerInsufficient,
        ErrorCode::ValueInsufficient,
        ErrorCode::AssetUnavailable,
        ErrorCode::ClockSkew,
        ErrorCode::Timeout,
        ErrorCode::VersionConflict,
    ]
}

#[test]
fn error_classes() {
    assert_eq!(ErrorCode::InvalidParams.class(), ErrorClass::Input);
    assert_eq!(ErrorCode::NotDepositor.class(), ErrorClass::Authorization);
    assert_eq!(ErrorCode::NotBidder.class(), ErrorClass::Authorization);
    assert_eq!(ErrorCode::WindowNotOpen.class(), ErrorClass::State);
    assert_eq!(ErrorCode::WindowNotClosed.class(), ErrorClass::State);
    assert_eq!(ErrorCode::AlreadySettled.class(), ErrorClass::State);
    assert_eq!(ErrorCode::NotSettled.class(), ErrorClass::State);
    assert_eq!(ErrorCode::Exhausted.class(), ErrorClass::State);
    assert_eq!(ErrorCode::EscrowClosed.class(), ErrorClass::State);
    assert_eq!(ErrorCode::BidTooLow.class(), ErrorClass::Economics);
    assert_eq!(ErrorCode::NoBidsToSettle.class(), ErrorClass::Economics);
    assert_eq!(ErrorCode::LedgerInsufficient.class(), ErrorClass::External);
    assert_eq!(ErrorCode::ValueInsufficient.class(), ErrorClass::External);
    assert_eq!(ErrorCode::AssetUnavailable.class(), ErrorClass::External);
    assert_eq!(ErrorCode::ClockSkew.class(), ErrorClass::External);
    assert_eq!(ErrorCode::Timeout.class(), ErrorClass::Concurrency);
    assert_eq!(ErrorCode::VersionConflict.class(), ErrorClass::Concurrency);
}

#[test]
fn only_concurrency_errors_are_retryable() {
    for code in all_codes() {
        let expected = matches!(code, ErrorCode::Timeout | ErrorCode::VersionConflict);
        assert_eq!(code.is_retryable(), expected);
        assert_eq!(code.is_retryable(), code.class() == ErrorClass::Concurrency);
    }
}

#[test]
fn ledger_refusals_surface_under_their_codes() {
    let a = Key::new(1, 2, 3, 4);
    let b = Key::new(5, 6, 7, 8);
    let escrow = EscrowRef { index: 3 };
    let custody = Holder::Custody(WindowRef { escrow, window_index: 9 });
    assert_eq!(
        LedgerOp::LockAsset { depositor: a, asset_ref: b }.failure_code(),
        Some(ErrorCode::AssetUnavailable)
    );
    assert_eq!(
        LedgerOp::CreditFractions { mint_ref: a, from_custody: escrow, recipient: b, amount: 1 }.failure_code(),
        Some(ErrorCode::LedgerInsufficient)
    );
    assert_eq!(
        LedgerOp::TransferValue { from: Holder::Party(a), to: custody, amount: 1 }.failure_code(),
        Some(ErrorCode::ValueInsufficient)
    );
    assert_eq!(LedgerOp::MintFractions { mint_ref: a, to_custody: escrow, amount: 1 }.failure_code(), None);
    assert_eq!(LedgerOp::ReleaseAsset { depositor: a, asset_ref: b }.failure_code(), None);
}

#[test]
fn keys_compare_by_all_their_words() {
    let k = Key::new(1, 2, 3, 4);
    assert_eq!(k, Key { w0: 1, w1: 2, w2: 3, w3: 4 });
    assert_ne!(k, Key::new(0, 2, 3, 4));
    assert_ne!(k, Key::new(1, 0, 3, 4));
    assert_ne!(k, Key::new(1, 2, 0, 4));
    assert_ne!(k, Key::new(1, 2, 3, 0));
}
