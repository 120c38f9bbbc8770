use ricks::error::ErrorCode;
use ricks::instructions::dispatcher::{commit, plan, Command};
use ricks::instructions::initialize_escrow::{self, InitializeEscrow};
use ricks::instructions::initialize_user_position::{self, InitializeUserPosition};
use ricks::instructions::place_bid::PlaceBid;
use ricks::instructions::reclaim_losing_bid::ReclaimLosingBid;
use ricks::instructions::settle::Settle;
use ricks::instructions::close_escrow::CloseEscrow;
use ricks::key::{EscrowRef, Key, WindowRef};
use ricks::ledger::LedgerOp;
use ricks::state::escrow::{EscrowParams, EscrowStatus};
use ricks::state::user_position::UserPosition;
use ricks::store::Store;

fn key(n: u64) -> Key {
    Key::new(n, n + 1, n + 2, n + 3)
}

fn args(depositor: u64, asset: u64, total: u64, per_window: u64, window_length: u64) -> InitializeEscrow {
    InitializeEscrow {
        depositor: key(depositor),
        asset_ref: key(asset),
        fraction_mint_ref: key(asset + 1000),
        total_fractions: total,
        fractions_per_window: per_window,
        window_length,
    }
}

#[test]
fn validate_params_rejects_zeros() {
    assert_eq!(args(1, 2, 100, 10, 86_400).validate_params(), Ok(()));
    assert_eq!(args(1, 2, 10, 10, 1).validate_params(), Ok(()));
    assert_eq!(args(1, 2, 1, 1, 1).validate_params(), Ok(()));
    assert_eq!(args(1, 2, 0, 10, 86_400).validate_params(), Err(ErrorCode::InvalidParams));
    assert_eq!(args(1, 2, 100, 0, 86_400).validate_params(), Err(ErrorCode::InvalidParams));
    assert_eq!(args(1, 2, 100, 10, 0).validate_params(), Err(ErrorCode::InvalidParams));
    assert_eq!(args(1, 2, 0, 0, 0).validate_params(), Err(ErrorCode::InvalidParams));
}

#[test]
fn validate_params_rejects_offer_above_supply() {
    assert_eq!(args(1, 2, 10, 11, 86_400).validate_params(), Err(ErrorCode::InvalidParams));
    assert_eq!(args(1, 2, u64::MAX, u64::MAX, u64::MAX).validate_params(), Ok(()));
}

#[test]
fn escrow_params_validate_like_the_command() {
    let params = args(1, 2, 100, 10, 86_400).params(77);
    assert_eq!(params.genesis_time, 77);
    assert_eq!(params.validate(), Ok(()));
    let escrow = params.escrow();
    assert_eq!(escrow.outstanding_fractions, 100);
    assert_eq!(escrow.genesis_time, 77);
    assert!(escrow.is_locked());
    let bad = EscrowParams { fractions_per_window: 101, ..params };
    assert_eq!(bad.validate(), Err(ErrorCode::InvalidParams));
}

#[test]
fn invalid_escrow_is_not_made() {
    let mut store = Store::new();
    for bad in [args(1, 2, 0, 1, 1), args(1, 2, 5, 0, 1), args(1, 2, 5, 1, 0), args(1, 2, 5, 6, 1)] {
        assert_eq!(plan(&store, &Command::InitializeEscrow(bad), 0).unwrap_err(), ErrorCode::InvalidParams);
        assert_eq!(commit(&mut store, &Command::InitializeEscrow(bad), 0).unwrap_err(), ErrorCode::InvalidParams);
        assert_eq!(initialize_escrow::handler(&mut store, &bad, 0).unwrap_err(), ErrorCode::InvalidParams);
    }
    assert_eq!(store.escrow_count(), 0);
}

#[test]
fn same_asset_cannot_be_locked_twice() {
    let mut store = Store::new();
    let first = commit(&mut store, &Command::InitializeEscrow(args(1, 2, 100, 10, 60)), 0).unwrap();
    assert_eq!(
        commit(&mut store, &Command::InitializeEscrow(args(1, 2, 50, 5, 60)), 10).unwrap_err(),
        ErrorCode::AssetUnavailable
    );
    assert_eq!(store.escrow_count(), 1);
    // Another asset of the same depositor, and the same asset name under another depositor, are other keys.
    let second = commit(&mut store, &Command::InitializeEscrow(args(1, 3, 50, 5, 60)), 10).unwrap();
    let third = commit(&mut store, &Command::InitializeEscrow(args(4, 2, 50, 5, 60)), 10).unwrap();
    assert_eq!(first.escrow_ref, EscrowRef { index: 0 });
    assert_eq!(second.escrow_ref, EscrowRef { index: 1 });
    assert_eq!(third.escrow_ref, EscrowRef { index: 2 });
    assert_eq!(store.find_escrow(key(1), key(2)), Some(first.escrow_ref));
    assert_eq!(store.find_escrow(key(1), key(3)), Some(second.escrow_ref));
    assert_eq!(store.find_escrow(key(4), key(2)), Some(third.escrow_ref));
    assert_eq!(store.find_escrow(key(4), key(3)), None);
}

#[test]
fn closed_escrow_frees_its_key() {
    let mut store = Store::new();
    let first = commit(&mut store, &Command::InitializeEscrow(args(1, 2, 100, 10, 60)), 0).unwrap().escrow_ref;
    commit(&mut store, &Command::CloseEscrow(CloseEscrow { depositor: key(1), escrow_ref: first }), 5).unwrap();
    assert_eq!(store.find_escrow(key(1), key(2)), None);
    let again = commit(&mut store, &Command::InitializeEscrow(args(1, 2, 100, 10, 60)), 9).unwrap().escrow_ref;
    assert_eq!(again, EscrowRef { index: 1 });
    assert_eq!(store.find_escrow(key(1), key(2)), Some(again));
    assert_eq!(store.get_escrow(first).unwrap().status, EscrowStatus::Closed);
    assert_eq!(store.get_escrow(again).unwrap().status, EscrowStatus::Locked);
    assert_eq!(store.get_escrow(again).unwrap().genesis_time, 9);
}

#[test]
fn unknown_escrow_is_invalid_params() {
    let mut store = Store::new();
    commit(&mut store, &Command::InitializeEscrow(args(1, 2, 100, 10, 60)), 0).unwrap();
    let nowhere = EscrowRef { index: 5 };
    let commands = [
        Command::InitializeUserPosition(InitializeUserPosition { user: key(7), escrow_ref: nowhere }),
        Command::PlaceBid(PlaceBid { bidder: key(7), escrow_ref: nowhere, amount: 3 }),
        Command::Settle(Settle { escrow_ref: nowhere, window_index: 0 }),
        Command::ReclaimLosingBid(ReclaimLosingBid {
            bidder: key(7),
            window_ref: WindowRef { escrow: nowhere, window_index: 0 },
        }),
        Command::CloseEscrow(CloseEscrow { depositor: key(1), escrow_ref: nowhere }),
    ];
    for command in commands {
        assert_eq!(plan(&store, &command, 100).unwrap_err(), ErrorCode::InvalidParams);
        assert_eq!(commit(&mut store, &command, 100).unwrap_err(), ErrorCode::InvalidParams);
    }
    assert_eq!(store.get_escrow(nowhere), None);
    assert!(store.auction(nowhere).is_none());
    assert!(!store.holds(nowhere));
    assert_eq!(store.get_position(nowhere, key(7)), None);
    assert_eq!(store.get_window(WindowRef { escrow: nowhere, window_index: 0 }), None);
    assert_eq!(store.get_bid(WindowRef { escrow: nowhere, window_index: 0 }, key(7)), None);
    assert_eq!(store.get_or_open_window(nowhere, 0, 0), Err(ErrorCode::InvalidParams));
}

#[test]
fn initialize_user_position_makes_a_zero_position() {
    let mut store = Store::new();
    let escrow = commit(&mut store, &Command::InitializeEscrow(args(1, 2, 100, 10, 60)), 0).unwrap().escrow_ref;
    let open = InitializeUserPosition { user: key(7), escrow_ref: escrow };
    assert_eq!(store.get_position(escrow, key(7)), None);
    let receipt = initialize_user_position::handler(&mut store, &open).unwrap();
    assert_eq!(receipt.escrow_ref, escrow);
    assert_eq!(receipt.ops, Vec::<LedgerOp>::new());
    assert_eq!(
        store.get_position(escrow, key(7)),
        Some(UserPosition { escrow_ref: escrow, user: key(7), fractions_owned: 0 })
    );
    assert_eq!(store.auction(escrow).unwrap().fractions_owned(key(7)), 0);
    // A second position of the same user is refused.
    assert_eq!(initialize_user_position::plan(&store, &open).unwrap_err(), ErrorCode::InvalidParams);
    assert_eq!(initialize_user_position::handler(&mut store, &open).unwrap_err(), ErrorCode::InvalidParams);
    assert_eq!(store.auction(escrow).unwrap().position_count(), 1);
}

#[test]
fn position_made_first_is_credited_later() {
    let mut store = Store::new();
    let escrow = commit(&mut store, &Command::InitializeEscrow(args(1, 2, 100, 10, 60)), 0).unwrap().escrow_ref;
    commit(&mut store, &Command::InitializeUserPosition(InitializeUserPosition { user: key(7), escrow_ref: escrow }), 1).unwrap();
    commit(&mut store, &Command::PlaceBid(PlaceBid { bidder: key(7), escrow_ref: escrow, amount: 3 }), 2).unwrap();
    commit(&mut store, &Command::Settle(Settle { escrow_ref: escrow, window_index: 0 }), 60).unwrap();
    commit(&mut store, &Command::PlaceBid(PlaceBid { bidder: key(7), escrow_ref: escrow, amount: 4 }), 61).unwrap();
    commit(&mut store, &Command::Settle(Settle { escrow_ref: escrow, window_index: 1 }), 120).unwrap();
    assert_eq!(store.get_position(escrow, key(7)).unwrap().fractions_owned, 20);
    assert_eq!(store.auction(escrow).unwrap().position_count(), 1);
    assert_eq!(store.get_escrow(escrow).unwrap().outstanding_fractions, 80);
}

#[test]
fn position_on_closed_escrow_is_refused() {
    let mut store = Store::new();
    let escrow = commit(&mut store, &Command::InitializeEscrow(args(1, 2, 100, 10, 60)), 0).unwrap().escrow_ref;
    commit(&mut store, &Command::CloseEscrow(CloseEscrow { depositor: key(1), escrow_ref: escrow }), 5).unwrap();
    let open = Command::InitializeUserPosition(InitializeUserPosition { user: key(7), escrow_ref: escrow });
    assert_eq!(commit(&mut store, &open, 6).unwrap_err(), ErrorCode::EscrowClosed);
    let reclaim = Command::ReclaimLosingBid(ReclaimLosingBid {
        bidder: key(7),
        window_ref: WindowRef { escrow, window_index: 0 },
    });
    assert_eq!(commit(&mut store, &reclaim, 6).unwrap_err(), ErrorCode::EscrowClosed);
    assert_eq!(store.get_or_open_window(escrow, 0, 6), Err(ErrorCode::EscrowClosed));
}

#[test]
fn bid_before_genesis_is_clock_skew() {
    let mut store = Store::new();
    let escrow = commit(&mut store, &Command::InitializeEscrow(args(1, 2, 100, 10, 60)), 1000).unwrap().escrow_ref;
    let bid = Command::PlaceBid(PlaceBid { bidder: key(7), escrow_ref: escrow, amount: 3 });
    assert_eq!(plan(&store, &bid, 999).unwrap_err(), ErrorCode::ClockSkew);
    assert_eq!(commit(&mut store, &bid, 999).unwrap_err(), ErrorCode::ClockSkew);
    assert_eq!(
        commit(&mut store, &Command::Settle(Settle { escrow_ref: escrow, window_index: 0 }), 999).unwrap_err(),
        ErrorCode::ClockSkew
    );
    assert_eq!(store.get_or_open_window(escrow, 0, 999), Err(ErrorCode::ClockSkew));
    assert!(commit(&mut store, &bid, 1000).is_ok());
}

#[test]
fn window_beyond_the_clock_is_invalid_params() {
    let mut store = Store::new();
    let escrow = commit(&mut store, &Command::InitializeEscrow(args(1, 2, 100, 10, 100)), i64::MAX - 50).unwrap().escrow_ref;
    let bid = Command::PlaceBid(PlaceBid { bidder: key(7), escrow_ref: escrow, amount: 3 });
    assert_eq!(commit(&mut store, &bid, i64::MAX - 10).unwrap_err(), ErrorCode::InvalidParams);
    assert_eq!(
        commit(&mut store, &Command::Settle(Settle { escrow_ref: escrow, window_index: 0 }), i64::MAX).unwrap_err(),
        ErrorCode::WindowNotClosed
    );
}

#[test]
fn plan_agrees_with_commit_and_changes_nothing() {
    let mut store = Store::new();
    let escrow = commit(&mut store, &Command::InitializeEscrow(args(1, 2, 100, 10, 60)), 0).unwrap().escrow_ref;
    let steps = [
        (Command::PlaceBid(PlaceBid { bidder: key(7), escrow_ref: escrow, amount: 30 }), 1),
        (Command::PlaceBid(PlaceBid { bidder: key(8), escrow_ref: escrow, amount: 30 }), 2),
        (Command::PlaceBid(PlaceBid { bidder: key(8), escrow_ref: escrow, amount: 31 }), 3),
        (Command::PlaceBid(PlaceBid { bidder: key(7), escrow_ref: escrow, amount: 45 }), 4),
        (Command::Settle(Settle { escrow_ref: escrow, window_index: 0 }), 59),
        (Command::Settle(Settle { escrow_ref: escrow, window_index: 0 }), 60),
        (Command::Settle(Settle { escrow_ref: escrow, window_index: 0 }), 61),
        (Command::ReclaimLosingBid(ReclaimLosingBid { bidder: key(8), window_ref: WindowRef { escrow, window_index: 0 } }), 62),
        (Command::ReclaimLosingBid(ReclaimLosingBid { bidder: key(7), window_ref: WindowRef { escrow, window_index: 0 } }), 62),
        (Command::InitializeUserPosition(InitializeUserPosition { user: key(7), escrow_ref: escrow }), 63),
        (Command::InitializeUserPosition(InitializeUserPosition { user: key(9), escrow_ref: escrow }), 63),
        (Command::CloseEscrow(CloseEscrow { depositor: key(1), escrow_ref: escrow }), 64),
        (Command::InitializeEscrow(args(1, 2, 100, 10, 60)), 65),
        (Command::InitializeEscrow(args(5, 6, 100, 10, 60)), 65),
    ];
    for (command, now) in steps {
        let escrow_before = store.get_escrow(escrow);
        let count_before = store.escrow_count();
        let planned = plan(&store, &command, now);
        assert_eq!(store.get_escrow(escrow), escrow_before);
        assert_eq!(store.escrow_count(), count_before);
        let committed = commit(&mut store, &command, now);
        match (planned, committed) {
            (Ok(p), Ok(c)) => {
                assert_eq!(p.escrow_ref, c.escrow_ref);
                assert_eq!(p.ops, c.ops);
            }
            (Err(p), Err(c)) => assert_eq!(p, c),
            (p, c) => panic!("plan {:?} and commit {:?} disagree", p, c),
        }
    }
    assert_eq!(store.escrow_count(), 2);
}
