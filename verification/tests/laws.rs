use ricks::engine::RicksAuction;
use ricks::error::ErrorCode;
use ricks::key::{EscrowRef, Key};
use ricks::ledger::{Holder, LedgerOp};
use ricks::state::auction::{Bid, Phase};
use ricks::state::escrow::EscrowParams;
use ricks::key::WindowRef;

fn key(n: u64) -> Key {
    Key::new(0, 0, n, 0)
}

fn auction(total: u64, per_window: u64, window_length: u64) -> RicksAuction {
    let params = EscrowParams {
        depositor: key(1),
        asset_ref: key(2),
        fraction_mint_ref: key(3),
        total_fractions: total,
        fractions_per_window: per_window,
        genesis_time: 0,
        window_length,
    };
    RicksAuction::new(EscrowRef { index: 4 }, &params).unwrap()
}

fn owned_by_all(auction: &RicksAuction, users: &[Key]) -> u64 {
    users.iter().map(|user| auction.fractions_owned(*user)).sum()
}

#[test]
fn supply_is_conserved_through_many_windows() {
    let mut a = auction(100, 30, 10);
    let users = [key(10), key(11), key(12)];
    let mut last_outstanding = a.escrow().outstanding_fractions;
    for window in 0..5u64 {
        let now = (window * 10) as i64;
        let first = a.place_bid(window, users[(window % 3) as usize], 5 + window, now + 1);
        let second = a.place_bid(window, users[((window + 1) % 3) as usize], 9 + window, now + 2);
        let settled = a.settle(window, now + 10);
        if window < 3 {
            assert!(first.is_ok() && second.is_ok() && settled.is_ok());
        } else {
            // 10 fractions are left, fewer than a window offers.
            assert_eq!(first, Err(ErrorCode::Exhausted));
            assert_eq!(second, Err(ErrorCode::Exhausted));
            assert_eq!(settled, Err(ErrorCode::NoBidsToSettle));
        }
        let escrow = a.escrow();
        assert_eq!(owned_by_all(&a, &users) + escrow.outstanding_fractions, escrow.total_fractions);
        assert!(escrow.outstanding_fractions <= last_outstanding);
        last_outstanding = escrow.outstanding_fractions;
    }
    assert_eq!(a.escrow().outstanding_fractions, 10);
    assert_eq!(a.fractions_owned(key(11)), 30);
    assert_eq!(a.fractions_owned(key(12)), 30);
    assert_eq!(a.fractions_owned(key(10)), 30);
    assert_eq!(a.position_count(), 3);
}

#[test]
fn at_most_one_window_is_live() {
    let mut a = auction(100, 10, 10);
    a.place_bid(0, key(10), 5, 1).unwrap();
    // Window 0 waits for its settlement: window 1 cannot open beside it.
    assert_eq!(a.place_bid(1, key(11), 5, 11), Err(ErrorCode::NotSettled));
    assert_eq!(a.get_or_open_window(1, 11), Err(ErrorCode::NotSettled));
    assert_eq!(a.window_count(), 1);
    a.settle(0, 11).unwrap();
    a.place_bid(1, key(11), 5, 11).unwrap();
    assert_eq!(a.window_count(), 2);
    assert_eq!(a.get_window(0).unwrap().phase(11), Phase::Settled);
    assert_eq!(a.get_window(1).unwrap().phase(11), Phase::Open);
    let live = (0..2u64)
        .filter(|index| a.get_window(*index).unwrap().phase(25) != Phase::Settled)
        .count();
    assert_eq!(live, 1);
}

#[test]
fn bid_succeeds_iff_it_exceeds_the_highest() {
    let mut a = auction(100, 10, 1000);
    a.place_bid(0, key(10), 50, 1).unwrap();
    let mut highest = 50u64;
    for amount in [0u64, 1, 49, 50, 51, 51, 50, 52, 1000, 999, 1000, 1001, u64::MAX, u64::MAX] {
        let planned = a.plan_bid(0, key(11), amount, 2);
        let placed = a.place_bid(0, key(11), amount, 2);
        assert_eq!(planned.is_ok(), amount > highest);
        assert_eq!(placed.is_ok(), amount > highest);
        if amount > highest {
            highest = amount;
        } else {
            assert_eq!(placed, Err(ErrorCode::BidTooLow));
        }
        assert_eq!(a.get_window(0).unwrap().highest_bid_amount(), Some(highest));
    }
    assert_eq!(highest, u64::MAX);
}

#[test]
fn first_bid_of_any_amount_is_accepted() {
    let mut a = auction(100, 10, 1000);
    assert_eq!(a.place_bid(0, key(10), 0, 1), Ok(vec![]));
    assert_eq!(a.get_window(0).unwrap().highest_bid_amount(), Some(0));
    assert_eq!(a.place_bid(0, key(11), 0, 1), Err(ErrorCode::BidTooLow));
}

#[test]
fn outbid_bidder_tops_up_only_the_difference() {
    let mut a = auction(100, 10, 1000);
    let custody = Holder::Custody(WindowRef { escrow: EscrowRef { index: 4 }, window_index: 0 });
    a.place_bid(0, key(10), 50, 1).unwrap();
    a.place_bid(0, key(11), 60, 2).unwrap();
    assert_eq!(a.custody_of(0, key(10)), 50);
    assert_eq!(a.custody_of(0, key(11)), 60);
    assert_eq!(a.custody_of(0, key(12)), 0);
    assert_eq!(a.custody_of(1, key(10)), 0);
    assert_eq!(
        a.place_bid(0, key(10), 75, 3),
        Ok(vec![LedgerOp::TransferValue { from: Holder::Party(key(10)), to: custody, amount: 25 }])
    );
    assert_eq!(
        a.get_bid(0, key(10)),
        Some(Bid {
            window_ref: WindowRef { escrow: EscrowRef { index: 4 }, window_index: 0 },
            bidder: key(10),
            amount: 75,
            custodied_balance: 75,
        })
    );
    assert_eq!(a.bid_count(), 2);
}

#[test]
fn settlement_without_winner_moves_nothing() {
    let mut a = auction(100, 10, 10);
    a.place_bid(0, key(10), 5, 1).unwrap();
    a.settle(0, 10).unwrap();
    a.get_or_open_window(1, 12).unwrap();
    let escrow = a.escrow();
    let bids = a.bid_count();
    let positions = a.position_count();
    assert_eq!(a.plan_settle(1, 20), Ok(vec![]));
    assert_eq!(a.settle(1, 20), Ok(vec![]));
    assert_eq!(a.escrow(), escrow);
    assert_eq!(a.bid_count(), bids);
    assert_eq!(a.position_count(), positions);
    assert_eq!(a.fractions_owned(key(10)), 10);
    assert!(a.get_window(1).unwrap().settled);
}

#[test]
fn settlement_with_winner_pays_exactly() {
    let mut a = auction(50, 7, 10);
    let custody = Holder::Custody(WindowRef { escrow: EscrowRef { index: 4 }, window_index: 0 });
    a.place_bid(0, key(10), 5, 1).unwrap();
    a.place_bid(0, key(11), 8, 2).unwrap();
    a.place_bid(0, key(12), 13, 3).unwrap();
    let planned = a.plan_settle(0, 10).unwrap();
    let ops = a.settle(0, 10).unwrap();
    assert_eq!(planned, ops);
    assert_eq!(
        ops,
        vec![
            LedgerOp::TransferValue { from: custody, to: Holder::Party(key(1)), amount: 13 },
            LedgerOp::CreditFractions {
                mint_ref: key(3),
                from_custody: EscrowRef { index: 4 },
                recipient: key(12),
                amount: 7,
            },
        ]
    );
    assert_eq!(a.custody_of(0, key(12)), 0);
    assert_eq!(a.fractions_owned(key(12)), 7);
    assert_eq!(a.fractions_owned(key(10)), 0);
    assert_eq!(a.fractions_owned(key(11)), 0);
    assert_eq!(a.escrow().outstanding_fractions, 43);
    assert_eq!(a.custody_of(0, key(10)), 5);
    assert_eq!(a.custody_of(0, key(11)), 8);
    assert_eq!(
        a.plan_reclaim(0, key(11)),
        Ok(vec![LedgerOp::TransferValue { from: custody, to: Holder::Party(key(11)), amount: 8 }])
    );
    assert_eq!(a.reclaim_bid(0, key(11)).map(|ops| ops.len()), Ok(1));
    assert_eq!(a.reclaim_bid(0, key(10)).map(|ops| ops.len()), Ok(1));
    assert_eq!(a.bid_count(), 0);
    assert_eq!(a.reclaim_bid(0, key(10)), Err(ErrorCode::NotBidder));
}

#[test]
fn reclaim_of_a_zero_bid_moves_nothing() {
    let mut a = auction(50, 7, 10);
    a.place_bid(0, key(10), 0, 1).unwrap();
    a.place_bid(0, key(11), 1, 2).unwrap();
    a.settle(0, 10).unwrap();
    assert_eq!(a.reclaim_bid(0, key(10)), Ok(vec![]));
    assert_eq!(a.bid_count(), 0);
}

#[test]
fn window_indices_only_grow() {
    let mut a = auction(100, 10, 10);
    a.place_bid(3, key(10), 5, 35).unwrap();
    a.settle(3, 40).unwrap();
    // The clock went back: an earlier window is not opened behind a later one.
    assert_eq!(a.place_bid(1, key(11), 5, 15), Err(ErrorCode::WindowNotOpen));
    assert_eq!(a.get_or_open_window(1, 15), Err(ErrorCode::WindowNotOpen));
    // A settled window takes no bid, even while the clock says that it is open.
    assert_eq!(a.place_bid(3, key(11), 99, 35), Err(ErrorCode::WindowNotOpen));
    // A window on record is found at any time.
    assert_eq!(a.get_or_open_window(3, 0).map(|w| w.window_index), Ok(3));
    a.place_bid(4, key(11), 5, 45).unwrap();
    assert_eq!(a.window_count(), 2);
    assert_eq!(a.get_window(3).unwrap().opens_at, 30);
    assert_eq!(a.get_window(4).unwrap().opens_at, 40);
    assert_eq!(a.get_window(4).unwrap().closes_at, 50);
    assert_eq!(a.get_window(4).unwrap().window_ref(), WindowRef { escrow: EscrowRef { index: 4 }, window_index: 4 });
}

#[test]
fn closing_needs_the_depositor_and_an_untouched_supply() {
    let mut a = auction(100, 10, 10);
    assert_eq!(a.plan_close(key(9)), Err(ErrorCode::NotDepositor));
    assert_eq!(a.close(key(9)), Err(ErrorCode::NotDepositor));
    assert_eq!(a.plan_position(key(9)), Ok(()));
    assert_eq!(a.open_position(key(9)), Ok(()));
    assert_eq!(a.open_position(key(9)), Err(ErrorCode::InvalidParams));
    let planned = a.plan_close(key(1)).unwrap();
    assert_eq!(a.close(key(1)), Ok(planned));
    assert!(!a.escrow().is_locked());
    assert_eq!(a.escrow_ref(), EscrowRef { index: 4 });
    assert_eq!(a.close(key(1)), Err(ErrorCode::EscrowClosed));
    assert_eq!(a.plan_position(key(8)), Err(ErrorCode::EscrowClosed));
    assert_eq!(a.place_bid(0, key(10), 5, 1), Err(ErrorCode::EscrowClosed));
    assert_eq!(a.settle(0, 10), Err(ErrorCode::EscrowClosed));
    assert_eq!(a.reclaim_bid(0, key(10)), Err(ErrorCode::EscrowClosed));
}

#[test]
fn invalid_params_make_no_auction() {
    let params = EscrowParams {
        depositor: key(1),
        asset_ref: key(2),
        fraction_mint_ref: key(3),
        total_fractions: 5,
        fractions_per_window: 6,
        genesis_time: 0,
        window_length: 10,
    };
    assert_eq!(RicksAuction::new(EscrowRef { index: 0 }, &params).err(), Some(ErrorCode::InvalidParams));
}
