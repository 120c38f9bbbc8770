use ricks::engine::RicksAuction;
use ricks::error::ErrorCode;
use ricks::instructions::close_escrow::CloseEscrow;
use ricks::instructions::dispatcher::{commit, plan, Command};
use ricks::instructions::initialize_escrow::InitializeEscrow;
use ricks::instructions::place_bid::PlaceBid;
use ricks::instructions::reclaim_losing_bid::ReclaimLosingBid;
use ricks::instructions::settle::Settle;
use ricks::key::{EscrowRef, Key, WindowRef};
use ricks::ledger::{Holder, LedgerOp};
use ricks::state::auction::{HighestBid, Phase};
use ricks::state::escrow::{EscrowParams, EscrowStatus};
use ricks::store::Store;

const DAY: u64 = 86_400;

fn key(n: u64) -> Key {
    Key::new(n, 0, 0, 0)
}

fn depositor() -> Key {
    key(1)
}

fn alice() -> Key {
    key(2)
}

fn bob() -> Key {
    key(3)
}

fn asset() -> Key {
    key(100)
}

fn mint() -> Key {
    key(200)
}

fn init_args(total: u64, per_window: u64) -> InitializeEscrow {
    InitializeEscrow {
        depositor: depositor(),
        asset_ref: asset(),
        fraction_mint_ref: mint(),
        total_fractions: total,
        fractions_per_window: per_window,
        window_length: DAY,
    }
}

fn store_with_escrow(total: u64, per_window: u64) -> (Store, EscrowRef) {
    let mut store = Store::new();
    let receipt = commit(&mut store, &Command::InitializeEscrow(init_args(total, per_window)), 0)
        .expect("the escrow is made");
    (store, receipt.escrow_ref)
}

fn bid(store: &mut Store, escrow_ref: EscrowRef, bidder: Key, amount: u64, now: i64) -> Result<Vec<LedgerOp>, ErrorCode> {
    commit(store, &Command::PlaceBid(PlaceBid { bidder, escrow_ref, amount }), now).map(|r| r.ops)
}

fn settle(store: &mut Store, escrow_ref: EscrowRef, window_index: u64, now: i64) -> Result<Vec<LedgerOp>, ErrorCode> {
    commit(store, &Command::Settle(Settle { escrow_ref, window_index }), now).map(|r| r.ops)
}

fn window_ref(escrow: EscrowRef, window_index: u64) -> WindowRef {
    WindowRef { escrow, window_index }
}

#[test]
fn initialize_escrow_locks_and_mints() {
    let mut store = Store::new();
    let receipt = commit(&mut store, &Command::InitializeEscrow(init_args(100, 10)), 0).unwrap();
    assert_eq!(receipt.escrow_ref, EscrowRef { index: 0 });
    assert_eq!(
        receipt.ops,
        vec![
            LedgerOp::LockAsset { depositor: depositor(), asset_ref: asset() },
            LedgerOp::MintFractions { mint_ref: mint(), to_custody: EscrowRef { index: 0 }, amount: 100 },
        ]
    );
    let escrow = store.get_escrow(receipt.escrow_ref).unwrap();
    assert_eq!(escrow.depositor, depositor());
    assert_eq!(escrow.asset_ref, asset());
    assert_eq!(escrow.fraction_mint_ref, mint());
    assert_eq!(escrow.total_fractions, 100);
    assert_eq!(escrow.outstanding_fractions, 100);
    assert_eq!(escrow.fractions_per_window, 10);
    assert_eq!(escrow.genesis_time, 0);
    assert_eq!(escrow.window_length, DAY);
    assert_eq!(escrow.status, EscrowStatus::Locked);
    assert_eq!(store.escrow_count(), 1);
}

#[test]
fn happy_auction() {
    let (mut store, escrow) = store_with_escrow(100, 10);
    let w0 = window_ref(escrow, 0);

    let ops = bid(&mut store, escrow, alice(), 500, 1000).unwrap();
    assert_eq!(
        ops,
        vec![LedgerOp::TransferValue { from: Holder::Party(alice()), to: Holder::Custody(w0), amount: 500 }]
    );
    let ops = bid(&mut store, escrow, bob(), 600, 2000).unwrap();
    assert_eq!(
        ops,
        vec![LedgerOp::TransferValue { from: Holder::Party(bob()), to: Holder::Custody(w0), amount: 600 }]
    );
    let window = store.get_window(w0).unwrap();
    assert_eq!(window.highest, Some(HighestBid { bidder: bob(), amount: 600 }));
    assert_eq!(window.opens_at, 0);
    assert_eq!(window.closes_at, 86_400);
    assert_eq!(window.fractions_on_offer, 10);
    assert_eq!(window.phase(2000), Phase::Open);
    assert_eq!(window.phase(86_400), Phase::ClosedUnsettled);

    let ops = settle(&mut store, escrow, 0, 86_400).unwrap();
    assert_eq!(
        ops,
        vec![
            LedgerOp::TransferValue { from: Holder::Custody(w0), to: Holder::Party(depositor()), amount: 600 },
            LedgerOp::CreditFractions { mint_ref: mint(), from_custody: escrow, recipient: bob(), amount: 10 },
        ]
    );
    assert_eq!(store.get_position(escrow, bob()).unwrap().fractions_owned, 10);
    assert_eq!(store.get_escrow(escrow).unwrap().outstanding_fractions, 90);
    assert_eq!(store.get_window(w0).unwrap().phase(86_400), Phase::Settled);
    // Bob's custody is gone, Alice's stays until she reclaims it.
    assert_eq!(store.get_bid(w0, bob()), None);
    let alice_bid = store.get_bid(w0, alice()).unwrap();
    assert_eq!(alice_bid.amount, 500);
    assert_eq!(alice_bid.custodied_balance, 500);

    let reclaim = Command::ReclaimLosingBid(ReclaimLosingBid { bidder: alice(), window_ref: w0 });
    let receipt = commit(&mut store, &reclaim, 86_500).unwrap();
    assert_eq!(
        receipt.ops,
        vec![LedgerOp::TransferValue { from: Holder::Custody(w0), to: Holder::Party(alice()), amount: 500 }]
    );
    assert_eq!(store.get_bid(w0, alice()), None);
    assert_eq!(commit(&mut store, &reclaim, 86_600).unwrap_err(), ErrorCode::NotBidder);
}

#[test]
fn tie_rejected() {
    let (mut store, escrow) = store_with_escrow(100, 10);
    bid(&mut store, escrow, alice(), 500, 1000).unwrap();
    assert_eq!(bid(&mut store, escrow, bob(), 500, 2000), Err(ErrorCode::BidTooLow));
    assert_eq!(bid(&mut store, escrow, bob(), 499, 2000), Err(ErrorCode::BidTooLow));
    let window = store.get_window(window_ref(escrow, 0)).unwrap();
    assert_eq!(window.highest_bidder(), Some(alice()));
    assert_eq!(window.highest_bid_amount(), Some(500));
    assert_eq!(store.get_bid(window_ref(escrow, 0), bob()), None);
    assert_eq!(bid(&mut store, escrow, bob(), 501, 2000).map(|ops| ops.len()), Ok(1));
}

#[test]
fn empty_window() {
    let (mut store, escrow) = store_with_escrow(100, 10);
    // No bid was placed into window 0: there is nothing to settle, and nothing moves.
    assert_eq!(settle(&mut store, escrow, 0, 86_400), Err(ErrorCode::NoBidsToSettle));
    assert_eq!(store.get_escrow(escrow).unwrap().outstanding_fractions, 100);
    assert_eq!(store.get_window(window_ref(escrow, 0)), None);
    // Window 1 opens at the second at which window 0 closes.
    bid(&mut store, escrow, alice(), 5, 86_400).unwrap();
    assert_eq!(store.get_window(window_ref(escrow, 0)), None);
    let window = store.get_window(window_ref(escrow, 1)).unwrap();
    assert_eq!(window.opens_at, 86_400);
    assert_eq!(window.closes_at, 172_800);
    assert_eq!(window.fractions_on_offer, 10);
}

#[test]
fn empty_window_on_record_settles_without_transfers() {
    let (mut store, escrow) = store_with_escrow(100, 10);
    let window = store.get_or_open_window(escrow, 0, 10).unwrap();
    assert_eq!(window.highest, None);
    assert!(!window.settled);
    // While it waits for its settlement, the next window cannot open.
    assert_eq!(bid(&mut store, escrow, alice(), 5, 86_400), Err(ErrorCode::NotSettled));
    assert_eq!(settle(&mut store, escrow, 0, 86_400), Ok(vec![]));
    assert_eq!(store.get_escrow(escrow).unwrap().outstanding_fractions, 100);
    assert!(store.get_window(window_ref(escrow, 0)).unwrap().settled);
    assert_eq!(settle(&mut store, escrow, 0, 86_400), Err(ErrorCode::AlreadySettled));
    assert_eq!(bid(&mut store, escrow, alice(), 5, 86_400).map(|ops| ops.len()), Ok(1));
}

#[test]
fn exhaustion() {
    let (mut store, escrow) = store_with_escrow(10, 10);
    bid(&mut store, escrow, alice(), 1, 5).unwrap();
    settle(&mut store, escrow, 0, 86_400).unwrap();
    assert_eq!(store.get_escrow(escrow).unwrap().outstanding_fractions, 0);
    assert_eq!(store.get_position(escrow, alice()).unwrap().fractions_owned, 10);
    assert_eq!(bid(&mut store, escrow, bob(), 1000, 86_401), Err(ErrorCode::Exhausted));
    assert_eq!(store.get_window(window_ref(escrow, 1)), None);
}

#[test]
fn raise_by_same_bidder() {
    let (mut store, escrow) = store_with_escrow(100, 10);
    let w0 = window_ref(escrow, 0);
    bid(&mut store, escrow, alice(), 500, 100).unwrap();
    let ops = bid(&mut store, escrow, alice(), 700, 200).unwrap();
    // Only the difference moves: her custody grows to 700, not to 1200.
    assert_eq!(
        ops,
        vec![LedgerOp::TransferValue { from: Holder::Party(alice()), to: Holder::Custody(w0), amount: 200 }]
    );
    let alice_bid = store.get_bid(w0, alice()).unwrap();
    assert_eq!(alice_bid.amount, 700);
    assert_eq!(alice_bid.custodied_balance, 700);
    assert_eq!(alice_bid.buffer(), 0);
    let ops = settle(&mut store, escrow, 0, 90_000).unwrap();
    // She receives custody - 700 back, which is nothing here, so no transfer to her is named.
    assert_eq!(
        ops,
        vec![
            LedgerOp::TransferValue { from: Holder::Custody(w0), to: Holder::Party(depositor()), amount: 700 },
            LedgerOp::CreditFractions { mint_ref: mint(), from_custody: escrow, recipient: alice(), amount: 10 },
        ]
    );
    assert_eq!(store.get_bid(w0, alice()), None);
    assert_eq!(store.get_position(escrow, alice()).unwrap().fractions_owned, 10);
}

#[test]
fn late_bid() {
    let params = EscrowParams {
        depositor: depositor(),
        asset_ref: asset(),
        fraction_mint_ref: mint(),
        total_fractions: 100,
        fractions_per_window: 10,
        genesis_time: 0,
        window_length: DAY,
    };
    let mut auction = RicksAuction::new(EscrowRef { index: 0 }, &params).unwrap();
    assert_eq!(auction.plan_bid(0, alice(), 500, 86_401), Err(ErrorCode::WindowNotOpen));
    assert_eq!(auction.place_bid(0, alice(), 500, 86_401), Err(ErrorCode::WindowNotOpen));
    assert_eq!(auction.window_count(), 0);
    assert_eq!(auction.place_bid(1, alice(), 500, 86_401).map(|ops| ops.len()), Ok(1));
    assert_eq!(auction.get_window(1).unwrap().highest_bid_amount(), Some(500));
    // A window that has not opened yet takes no bid either.
    assert_eq!(auction.place_bid(2, bob(), 900, 86_401), Err(ErrorCode::WindowNotOpen));
}

#[test]
fn late_bid_through_the_store_lands_in_the_next_window() {
    let (mut store, escrow) = store_with_escrow(100, 10);
    assert_eq!(store.get_or_open_window(escrow, 0, 86_401), Err(ErrorCode::WindowNotOpen));
    bid(&mut store, escrow, alice(), 500, 86_401).unwrap();
    assert_eq!(store.get_window(window_ref(escrow, 0)), None);
    assert_eq!(store.get_window(window_ref(escrow, 1)).unwrap().highest_bidder(), Some(alice()));
}

#[test]
fn settle_before_close_is_refused() {
    let (mut store, escrow) = store_with_escrow(100, 10);
    bid(&mut store, escrow, alice(), 500, 1000).unwrap();
    assert_eq!(settle(&mut store, escrow, 0, 86_399), Err(ErrorCode::WindowNotClosed));
    assert_eq!(settle(&mut store, escrow, 7, 86_400), Err(ErrorCode::WindowNotClosed));
    assert!(!store.get_window(window_ref(escrow, 0)).unwrap().settled);
    assert!(settle(&mut store, escrow, 0, 86_400).is_ok());
}

#[test]
fn settle_is_idempotent() {
    let (mut store, escrow) = store_with_escrow(100, 10);
    bid(&mut store, escrow, alice(), 500, 1000).unwrap();
    settle(&mut store, escrow, 0, 86_400).unwrap();
    let escrow_before = store.get_escrow(escrow).unwrap();
    let position_before = store.get_position(escrow, alice());
    assert_eq!(settle(&mut store, escrow, 0, 86_400), Err(ErrorCode::AlreadySettled));
    assert_eq!(settle(&mut store, escrow, 0, 1_000_000), Err(ErrorCode::AlreadySettled));
    assert_eq!(settle(&mut store, escrow, 0, 5), Err(ErrorCode::AlreadySettled));
    assert_eq!(store.get_escrow(escrow).unwrap(), escrow_before);
    assert_eq!(store.get_position(escrow, alice()), position_before);
}

#[test]
fn reclaim_needs_a_settled_window_and_a_bid() {
    let (mut store, escrow) = store_with_escrow(100, 10);
    let w0 = window_ref(escrow, 0);
    bid(&mut store, escrow, alice(), 500, 1000).unwrap();
    bid(&mut store, escrow, bob(), 600, 2000).unwrap();
    let alice_reclaims = Command::ReclaimLosingBid(ReclaimLosingBid { bidder: alice(), window_ref: w0 });
    let carol_reclaims = Command::ReclaimLosingBid(ReclaimLosingBid { bidder: key(4), window_ref: w0 });
    let bob_reclaims = Command::ReclaimLosingBid(ReclaimLosingBid { bidder: bob(), window_ref: w0 });
    assert_eq!(commit(&mut store, &alice_reclaims, 3000).unwrap_err(), ErrorCode::NotSettled);
    assert_eq!(commit(&mut store, &carol_reclaims, 3000).unwrap_err(), ErrorCode::NotBidder);
    settle(&mut store, escrow, 0, 86_400).unwrap();
    // The winner has nothing left to reclaim.
    assert_eq!(commit(&mut store, &bob_reclaims, 90_000).unwrap_err(), ErrorCode::NotBidder);
    assert_eq!(commit(&mut store, &carol_reclaims, 90_000).unwrap_err(), ErrorCode::NotBidder);
    assert!(commit(&mut store, &alice_reclaims, 90_000).is_ok());
}

#[test]
fn winner_is_also_the_depositor() {
    let (mut store, escrow) = store_with_escrow(100, 10);
    let w0 = window_ref(escrow, 0);
    bid(&mut store, escrow, depositor(), 40, 1000).unwrap();
    let ops = settle(&mut store, escrow, 0, 86_400).unwrap();
    assert_eq!(
        ops,
        vec![
            LedgerOp::TransferValue { from: Holder::Custody(w0), to: Holder::Party(depositor()), amount: 40 },
            LedgerOp::CreditFractions { mint_ref: mint(), from_custody: escrow, recipient: depositor(), amount: 10 },
        ]
    );
    assert_eq!(store.get_position(escrow, depositor()).unwrap().fractions_owned, 10);
}

#[test]
fn close_returns_everything() {
    let (mut store, escrow) = store_with_escrow(100, 10);
    let close = Command::CloseEscrow(CloseEscrow { depositor: depositor(), escrow_ref: escrow });
    let planned = plan(&store, &close, 50).unwrap();
    let receipt = commit(&mut store, &close, 50).unwrap();
    assert_eq!(planned.ops, receipt.ops);
    assert_eq!(
        receipt.ops,
        vec![
            LedgerOp::CreditFractions { mint_ref: mint(), from_custody: escrow, recipient: depositor(), amount: 100 },
            LedgerOp::ReleaseAsset { depositor: depositor(), asset_ref: asset() },
        ]
    );
    let record = store.get_escrow(escrow).unwrap();
    assert_eq!(record.status, EscrowStatus::Closed);
    assert_eq!(record.outstanding_fractions, 100);
    assert_eq!(store.auction(escrow).unwrap().window_count(), 0);
    assert_eq!(store.auction(escrow).unwrap().bid_count(), 0);
    assert_eq!(commit(&mut store, &close, 60).unwrap_err(), ErrorCode::EscrowClosed);
    assert_eq!(bid(&mut store, escrow, alice(), 5, 70), Err(ErrorCode::EscrowClosed));
    assert_eq!(settle(&mut store, escrow, 0, 90_000), Err(ErrorCode::EscrowClosed));
}

#[test]
fn close_after_empty_windows_only() {
    let (mut store, escrow) = store_with_escrow(100, 10);
    store.get_or_open_window(escrow, 0, 10).unwrap();
    let close = Command::CloseEscrow(CloseEscrow { depositor: depositor(), escrow_ref: escrow });
    assert_eq!(commit(&mut store, &close, 20).unwrap_err(), ErrorCode::NotSettled);
    settle(&mut store, escrow, 0, 86_400).unwrap();
    assert!(commit(&mut store, &close, 86_400).is_ok());
    assert_eq!(store.auction(escrow).unwrap().window_count(), 0);
}

#[test]
fn close_is_refused_once_an_auction_settled() {
    let (mut store, escrow) = store_with_escrow(100, 10);
    let close = Command::CloseEscrow(CloseEscrow { depositor: depositor(), escrow_ref: escrow });
    let stranger = Command::CloseEscrow(CloseEscrow { depositor: alice(), escrow_ref: escrow });
    assert_eq!(commit(&mut store, &stranger, 10).unwrap_err(), ErrorCode::NotDepositor);
    bid(&mut store, escrow, alice(), 500, 1000).unwrap();
    assert_eq!(commit(&mut store, &close, 2000).unwrap_err(), ErrorCode::NotSettled);
    settle(&mut store, escrow, 0, 86_400).unwrap();
    assert_eq!(commit(&mut store, &close, 90_000).unwrap_err(), ErrorCode::AlreadySettled);
    assert_eq!(store.get_escrow(escrow).unwrap().status, EscrowStatus::Locked);
}
