use ricks::engine::RicksAuction;
use ricks::error::ErrorCode;
use ricks::instructions::dispatcher::{commit, conclude, plan, Command, LedgerOutcome};
use ricks::instructions::initialize_escrow::InitializeEscrow;
use ricks::instructions::place_bid::PlaceBid;
use ricks::instructions::settle::Settle;
use ricks::key::{EscrowRef, Key, WindowRef};
use ricks::ledger::{Holder, LedgerOp};
use ricks::state::auction::{AuctionWindow, Bid, HighestBid};
use ricks::state::escrow::{Escrow, EscrowParams, EscrowStatus};
use ricks::state::user_position::UserPosition;
use ricks::store::Store;

fn key(n: u64) -> Key {
    Key::new(n, 0, 0, n)
}

const REF: EscrowRef = EscrowRef { index: 0 };

fn params() -> EscrowParams {
    EscrowParams {
        depositor: key(1),
        asset_ref: key(2),
        fraction_mint_ref: key(3),
        total_fractions: 100,
        fractions_per_window: 10,
        genesis_time: 0,
        window_length: 10,
    }
}

fn busy_auction() -> RicksAuction {
    let mut a = RicksAuction::new(REF, &params()).unwrap();
    a.place_bid(0, key(10), 5, 1).unwrap();
    a.place_bid(0, key(11), 6, 2).unwrap();
    a.settle(0, 10).unwrap();
    a.place_bid(1, key(10), 7, 11).unwrap();
    a.place_bid(1, key(12), 8, 12).unwrap();
    a
}

fn records(a: &RicksAuction) -> (Escrow, Vec<AuctionWindow>, Vec<Bid>, Vec<UserPosition>) {
    (
        a.escrow(),
        (0..a.window_count()).map(|i| a.window_at(i).unwrap()).collect(),
        (0..a.bid_count()).map(|i| a.bid_at(i).unwrap()).collect(),
        (0..a.position_count()).map(|i| a.position_at(i).unwrap()).collect(),
    )
}

fn restore(r: &(Escrow, Vec<AuctionWindow>, Vec<Bid>, Vec<UserPosition>)) -> Result<RicksAuction, ErrorCode> {
    RicksAuction::restore(REF, r.0, r.1.clone(), r.2.clone(), r.3.clone())
}

#[test]
fn records_are_read_in_place() {
    let a = busy_auction();
    let (escrow, windows, bids, positions) = records(&a);
    assert_eq!(escrow.outstanding_fractions, 90);
    assert_eq!(windows.len(), 2);
    assert_eq!(windows[0].window_index, 0);
    assert!(windows[0].settled);
    assert_eq!(windows[1].highest, Some(HighestBid { bidder: key(12), amount: 8 }));
    assert_eq!(bids.len(), 3);
    assert_eq!(positions, vec![UserPosition { escrow_ref: REF, user: key(11), fractions_owned: 10 }]);
    assert_eq!(a.window_at(2), None);
    assert_eq!(a.bid_at(3), None);
    assert_eq!(a.position_at(1), None);
}

#[test]
fn restore_gives_the_same_auction() {
    let a = busy_auction();
    let r = records(&a);
    let mut b = restore(&r).unwrap();
    assert_eq!(records(&b), r);
    assert_eq!(b.escrow_ref(), REF);
    // The restored auction goes on where the other stood.
    assert_eq!(b.place_bid(1, key(10), 8, 13), Err(ErrorCode::BidTooLow));
    assert_eq!(b.place_bid(1, key(10), 9, 13).map(|ops| ops.len()), Ok(1));
    assert_eq!(b.custody_of(1, key(10)), 9);
    assert!(b.settle(1, 20).is_ok());
    assert_eq!(b.fractions_owned(key(10)), 10);
}

#[test]
fn restore_of_a_new_auction() {
    let a = RicksAuction::new(REF, &params()).unwrap();
    let r = records(&a);
    assert!(restore(&r).is_ok());
    assert!(Store::restore(vec![restore(&r).unwrap()]).is_ok());
    assert!(Store::restore(vec![]).is_ok());
}

#[test]
fn restore_refuses_broken_records() {
    let good = records(&busy_auction());
    assert!(restore(&good).is_ok());

    let mut r = good.clone();
    r.0.outstanding_fractions = 91;
    assert_eq!(restore(&r).err(), Some(ErrorCode::InvalidParams), "the supply is not conserved");

    let mut r = good.clone();
    r.0.fractions_per_window = 0;
    assert!(restore(&r).is_err(), "a window offers nothing");

    let mut r = good.clone();
    r.0.window_length = 0;
    assert!(restore(&r).is_err(), "a window has no length");

    let mut r = good.clone();
    r.0.outstanding_fractions = 101;
    assert!(restore(&r).is_err(), "more is outstanding than was minted");

    let mut r = good.clone();
    r.1[1].closes_at += 1;
    assert!(restore(&r).is_err(), "a window is off the schedule");

    let mut r = good.clone();
    r.1[1].fractions_on_offer = 11;
    assert!(restore(&r).is_err(), "a window offers another amount");

    let mut r = good.clone();
    r.1[0].escrow_ref = EscrowRef { index: 1 };
    assert!(restore(&r).is_err(), "a window of another escrow");

    let mut r = good.clone();
    r.1.swap(0, 1);
    assert!(restore(&r).is_err(), "the windows are out of order");

    let mut r = good.clone();
    r.1[0].settled = false;
    assert!(restore(&r).is_err(), "two windows are live");

    let mut r = good.clone();
    r.1[1].highest = Some(HighestBid { bidder: key(12), amount: 9 });
    assert!(restore(&r).is_err(), "the leading bid is not on record");

    let mut r = good.clone();
    r.1[1].highest = None;
    assert!(restore(&r).is_err(), "bids in a window without a leader");

    let mut r = good.clone();
    r.2[0].custodied_balance = 4;
    assert!(restore(&r).is_err(), "the custody holds less than the bid");

    let mut r = good.clone();
    r.2[0].window_ref = WindowRef { escrow: REF, window_index: 7 };
    assert!(restore(&r).is_err(), "a bid without a window");

    let mut r = good.clone();
    r.2[1].amount = 9;
    r.2[1].custodied_balance = 9;
    assert!(restore(&r).is_err(), "a bid above the leading bid");

    let mut r = good.clone();
    let twin = r.2[0];
    r.2.push(twin);
    assert!(restore(&r).is_err(), "two bids of one bidder in one window");

    let mut r = good.clone();
    r.2.push(Bid {
        window_ref: WindowRef { escrow: REF, window_index: 0 },
        bidder: key(11),
        amount: 6,
        custodied_balance: 6,
    });
    assert!(restore(&r).is_err(), "the custody of a settled window holds funds of its winner");

    let mut r = good.clone();
    r.3.push(UserPosition { escrow_ref: REF, user: key(11), fractions_owned: 0 });
    assert!(restore(&r).is_err(), "two positions of one user");

    let mut r = good.clone();
    r.3[0].escrow_ref = EscrowRef { index: 3 };
    assert!(restore(&r).is_err(), "a position of another escrow");

    let mut r = good.clone();
    r.3[0].fractions_owned = u64::MAX;
    assert!(restore(&r).is_err(), "a position owns more than was minted");

    let mut r = good.clone();
    r.0.status = EscrowStatus::Closed;
    assert!(restore(&r).is_err(), "a closed escrow with windows");

    let mut r = good.clone();
    r.0.outstanding_fractions = 100;
    r.3.clear();
    assert!(restore(&r).is_err(), "a settled winner while the whole supply is outstanding");
}

#[test]
fn store_restore_checks_places_and_keys() {
    let first = RicksAuction::new(EscrowRef { index: 0 }, &params()).unwrap();
    let second = RicksAuction::new(EscrowRef { index: 1 }, &EscrowParams { asset_ref: key(5), ..params() }).unwrap();
    let store = Store::restore(vec![first, second]).unwrap();
    assert_eq!(store.escrow_count(), 2);
    assert_eq!(store.next_ref(), EscrowRef { index: 2 });
    assert_eq!(store.find_escrow(key(1), key(5)), Some(EscrowRef { index: 1 }));

    let first = RicksAuction::new(EscrowRef { index: 0 }, &params()).unwrap();
    let misplaced = RicksAuction::new(EscrowRef { index: 2 }, &EscrowParams { asset_ref: key(5), ..params() }).unwrap();
    assert_eq!(Store::restore(vec![first, misplaced]).err(), Some(ErrorCode::InvalidParams));

    let first = RicksAuction::new(EscrowRef { index: 0 }, &params()).unwrap();
    let twin = RicksAuction::new(EscrowRef { index: 1 }, &params()).unwrap();
    assert_eq!(Store::restore(vec![first, twin]).err(), Some(ErrorCode::InvalidParams));

    // A closed escrow may share its key with a locked one.
    let mut closed = RicksAuction::new(EscrowRef { index: 0 }, &params()).unwrap();
    closed.close(key(1)).unwrap();
    let again = RicksAuction::new(EscrowRef { index: 1 }, &params()).unwrap();
    assert!(Store::restore(vec![closed, again]).is_ok());
}

#[test]
fn upsert_position_finds_or_makes() {
    let mut store = Store::new();
    let init = InitializeEscrow {
        depositor: key(1),
        asset_ref: key(2),
        fraction_mint_ref: key(3),
        total_fractions: 100,
        fractions_per_window: 10,
        window_length: 10,
    };
    let escrow = commit(&mut store, &Command::InitializeEscrow(init), 0).unwrap().escrow_ref;
    let made = store.upsert_position(escrow, key(10)).unwrap();
    assert_eq!(made, UserPosition { escrow_ref: escrow, user: key(10), fractions_owned: 0 });
    commit(&mut store, &Command::PlaceBid(PlaceBid { bidder: key(10), escrow_ref: escrow, amount: 5 }), 1).unwrap();
    commit(&mut store, &Command::Settle(Settle { escrow_ref: escrow, window_index: 0 }), 10).unwrap();
    let found = store.upsert_position(escrow, key(10)).unwrap();
    assert_eq!(found.fractions_owned, 10);
    assert_eq!(store.auction(escrow).unwrap().position_count(), 1);
    assert_eq!(store.upsert_position(EscrowRef { index: 9 }, key(10)), Err(ErrorCode::InvalidParams));
}

#[test]
fn conclude_commits_or_surfaces_the_ledger_refusal() {
    let mut store = Store::new();
    let init = Command::InitializeEscrow(InitializeEscrow {
        depositor: key(1),
        asset_ref: key(2),
        fraction_mint_ref: key(3),
        total_fractions: 100,
        fractions_per_window: 10,
        window_length: 10,
    });
    // The lock is refused: nothing is written.
    assert_eq!(
        conclude(&mut store, &init, 0, LedgerOutcome::Refused { op: 0 }).unwrap_err(),
        ErrorCode::AssetUnavailable
    );
    assert_eq!(store.escrow_count(), 0);
    // The ledger has no way to refuse a mint, and the command has no third operation.
    assert_eq!(
        conclude(&mut store, &init, 0, LedgerOutcome::Refused { op: 1 }).unwrap_err(),
        ErrorCode::InvalidParams
    );
    assert_eq!(
        conclude(&mut store, &init, 0, LedgerOutcome::Refused { op: 2 }).unwrap_err(),
        ErrorCode::InvalidParams
    );
    let planned = plan(&store, &init, 0).unwrap();
    let receipt = conclude(&mut store, &init, 0, LedgerOutcome::Performed).unwrap();
    assert_eq!(planned.ops, receipt.ops);
    let escrow = receipt.escrow_ref;
    assert_eq!(store.escrow_count(), 1);

    let bid = Command::PlaceBid(PlaceBid { bidder: key(10), escrow_ref: escrow, amount: 5 });
    assert_eq!(
        conclude(&mut store, &bid, 1, LedgerOutcome::Refused { op: 0 }).unwrap_err(),
        ErrorCode::ValueInsufficient
    );
    assert_eq!(store.get_window(WindowRef { escrow, window_index: 0 }), None);
    conclude(&mut store, &bid, 1, LedgerOutcome::Performed).unwrap();

    let settle = Command::Settle(Settle { escrow_ref: escrow, window_index: 0 });
    assert_eq!(
        conclude(&mut store, &settle, 10, LedgerOutcome::Refused { op: 1 }).unwrap_err(),
        ErrorCode::LedgerInsufficient
    );
    assert_eq!(store.get_escrow(escrow).unwrap().outstanding_fractions, 100);
    // A command that the store refuses comes back with its own error, whatever the ledger said.
    assert_eq!(
        conclude(&mut store, &settle, 9, LedgerOutcome::Refused { op: 0 }).unwrap_err(),
        ErrorCode::WindowNotClosed
    );
    assert_eq!(
        conclude(&mut store, &settle, 9, LedgerOutcome::Performed).unwrap_err(),
        ErrorCode::WindowNotClosed
    );
    conclude(&mut store, &settle, 10, LedgerOutcome::Performed).unwrap();
    assert_eq!(store.get_escrow(escrow).unwrap().outstanding_fractions, 90);
}

#[test]
fn buffer_in_custody_covers_a_raise_and_comes_back() {
    let mut a = RicksAuction::new(REF, &params()).unwrap();
    a.place_bid(0, key(10), 500, 1).unwrap();
    a.place_bid(0, key(11), 600, 2).unwrap();
    // The custody holds 800 of the first bidder: 300 more than the bid.
    let mut r = records(&a);
    r.2[0].custodied_balance = 800;
    let mut a = restore(&r).unwrap();
    assert_eq!(a.get_bid(0, key(10)).unwrap().buffer(), 300);
    // The buffer covers the raise: no value moves, and the custody stays at 800, not 1500.
    assert_eq!(a.plan_bid(0, key(10), 700, 3), Ok(vec![]));
    assert_eq!(a.place_bid(0, key(10), 700, 3), Ok(vec![]));
    let bid = a.get_bid(0, key(10)).unwrap();
    assert_eq!((bid.amount, bid.custodied_balance, bid.buffer()), (700, 800, 100));
    // At the settlement the winner gets custody - 700 back.
    let custody = Holder::Custody(WindowRef { escrow: REF, window_index: 0 });
    assert_eq!(
        a.settle(0, 10),
        Ok(vec![
            LedgerOp::TransferValue { from: custody, to: Holder::Party(key(1)), amount: 700 },
            LedgerOp::CreditFractions { mint_ref: key(3), from_custody: REF, recipient: key(10), amount: 10 },
            LedgerOp::TransferValue { from: custody, to: Holder::Party(key(10)), amount: 100 },
        ])
    );
    assert_eq!(a.custody_of(0, key(10)), 0);
    assert_eq!(a.custody_of(0, key(11)), 600);
}

#[test]
fn raise_beyond_the_buffer_moves_the_rest() {
    let mut a = RicksAuction::new(REF, &params()).unwrap();
    a.place_bid(0, key(10), 500, 1).unwrap();
    let mut r = records(&a);
    r.2[0].custodied_balance = 650;
    let mut a = restore(&r).unwrap();
    let custody = Holder::Custody(WindowRef { escrow: REF, window_index: 0 });
    assert_eq!(
        a.place_bid(0, key(10), 700, 3),
        Ok(vec![LedgerOp::TransferValue { from: Holder::Party(key(10)), to: custody, amount: 50 }])
    );
    assert_eq!(a.custody_of(0, key(10)), 700);
}
