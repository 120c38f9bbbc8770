//! The laws of the engine.
//!
//! Each law is stated of the mathematical states and of the functions on them
//! that the contracts of the executable functions speak of, and holds of every
//! state that satisfies the invariant. Every store that the commands can make
//! of the empty store satisfies it.

use vstd::prelude::*;
use crate::error::ErrorCode;
use crate::instructions::close_escrow::CloseEscrow;
use crate::instructions::dispatcher::Command;
use crate::instructions::place_bid::PlaceBid;
use crate::instructions::settle::Settle;
use crate::key::{EscrowRef, Key};
use crate::ledger::{Holder, LedgerOp};
use crate::model::{window_covers, AuctionState};
use crate::schedule::{
    lemma_current_window_is_open, lemma_open_window_is_current, spec_window_closes_at,
    spec_window_index, spec_window_opens_at,
};
use crate::state::auction::AuctionWindow;
use crate::state::escrow::EscrowStatus;
use crate::state::user_position::total_owned;
use crate::store::StoreState;
use crate::versioned::VersionedState;

verus! {

// ----- the schedule -----
/// The window that the index formula gives for a time is the one window
/// that has opened and has not closed at that time.
pub proof fn law_one_window_holds_each_time(genesis: int, length: int, now: int, index: int)
    requires
        length > 0,
    ensures
        spec_window_index(genesis, length, now) == index <==> spec_window_opens_at(
            genesis,
            length,
            index,
        ) <= now < spec_window_closes_at(genesis, length, index),
        now >= genesis ==> spec_window_index(genesis, length, now) >= 0,
{
    lemma_current_window_is_open(genesis, length, now);
    if spec_window_opens_at(genesis, length, index) <= now < spec_window_closes_at(
        genesis,
        length,
        index,
    ) {
        lemma_open_window_is_current(genesis, length, now, index);
    }
}

/// At the second at which a window closes, it is closed and the next window
/// is the open one.
pub proof fn law_tie_goes_to_next_window(genesis: int, length: int, index: int)
    requires
        length > 0,
    ensures
        spec_window_closes_at(genesis, length, index) == spec_window_opens_at(
            genesis,
            length,
            index + 1,
        ),
        spec_window_index(genesis, length, spec_window_closes_at(genesis, length, index)) == index
            + 1,
{
    let now = spec_window_closes_at(genesis, length, index);
    assert((index + 2) * length == (index + 1) * length + length) by (nonlinear_arith);
    lemma_open_window_is_current(genesis, length, now, index + 1);
}

/// Windows do not overlap: a later window opens no earlier than an earlier
/// window closes.
pub proof fn law_windows_do_not_overlap(genesis: int, length: int, earlier: int, later: int)
    requires
        length > 0,
        earlier < later,
    ensures
        spec_window_closes_at(genesis, length, earlier) <= spec_window_opens_at(
            genesis,
            length,
            later,
        ),
{
    assert((earlier + 1) * length <= later * length) by (nonlinear_arith)
        requires
            earlier + 1 <= later,
            length > 0,
    ;
}

// ----- every reachable store is well formed -----
/// A command keeps the invariant of the store, whether it is accepted or
/// refused; it keeps every escrow of the store in its place, with its supply,
/// and lets the outstanding supply of no escrow grow.
pub proof fn law_step_keeps_invariant(store: StoreState, command: Command, now: i64)
    requires
        store.wf(),
    ensures
        store.step(command, now).wf(),
        store.step(command, now).auctions.len() >= store.auctions.len(),
        forall|i: int|
            0 <= i < store.auctions.len() ==> (#[trigger] store.step(
                command,
                now,
            ).auctions[i]).escrow.total_fractions == store.auctions[i].escrow.total_fractions
                && store.step(command, now).auctions[i].escrow.outstanding_fractions
                <= store.auctions[i].escrow.outstanding_fractions,
{
    if store.verdict(command, now) is None {
        match command {
            Command::InitializeEscrow(args) => {
                store.lemma_after_create_wf(args.spec_params(now));
            },
            Command::InitializeUserPosition(args) => {
                store.lemma_after_initialize_user_position_wf(args);
            },
            Command::PlaceBid(args) => {
                store.lemma_after_place_bid_wf(args, now);
                let auction = store.auction(args.escrow_ref);
                auction.lemma_with_window_wf(auction.current_window(now), now);
            },
            Command::Settle(args) => {
                store.lemma_after_settle_wf(args, now);
                store.auction(args.escrow_ref).lemma_after_settle_wf(args.window_index, now);
            },
            Command::ReclaimLosingBid(args) => {
                store.lemma_after_reclaim_wf(args);
            },
            Command::CloseEscrow(args) => {
                store.lemma_after_close_wf(args);
            },
        }
    }
}

/// Every store that a log of commands makes of a well-formed store is well
/// formed, keeps every escrow in its place with its supply, and has let the
/// outstanding supply of no escrow grow.
pub proof fn law_replay_keeps_invariant(store: StoreState, log: Seq<(Command, i64)>)
    requires
        store.wf(),
    ensures
        store.replay(log).wf(),
        store.replay(log).auctions.len() >= store.auctions.len(),
        forall|i: int|
            0 <= i < store.auctions.len() ==> (#[trigger] store.replay(
                log,
            ).auctions[i]).escrow.total_fractions == store.auctions[i].escrow.total_fractions
                && store.replay(log).auctions[i].escrow.outstanding_fractions
                <= store.auctions[i].escrow.outstanding_fractions,
    decreases log.len(),
{
    if log.len() > 0 {
        law_replay_keeps_invariant(store, log.drop_last());
        law_step_keeps_invariant(store.replay(log.drop_last()), log.last().0, log.last().1);
    }
}

/// Every store that a log of commands makes of the empty store is well formed.
pub proof fn law_reachable_is_well_formed(log: Seq<(Command, i64)>)
    ensures
        StoreState::empty().replay(log).wf(),
{
    law_replay_keeps_invariant(StoreState::empty(), log);
}

/// In every store that a log of commands makes of the empty store, what the
/// users of an escrow own and what is outstanding make up its supply, and at
/// most one of its windows is not settled.
pub proof fn law_reachable_keeps_the_books(
    log: Seq<(Command, i64)>,
    escrow_ref: EscrowRef,
    i: int,
    j: int,
)
    requires
        StoreState::empty().replay(log).holds(escrow_ref),
    ensures
        ({
            let auction = StoreState::empty().replay(log).auction(escrow_ref);
            &&& total_owned(auction.positions) + auction.escrow.outstanding_fractions
                == auction.escrow.total_fractions
            &&& 0 <= i < auction.windows.len() && 0 <= j < auction.windows.len()
                && !auction.windows[i].settled && !auction.windows[j].settled ==> i == j
        }),
{
    let store = StoreState::empty().replay(log);
    law_reachable_is_well_formed(log);
    law_supply_is_conserved(store, escrow_ref);
    let auction = store.auction(escrow_ref);
    if 0 <= i < auction.windows.len() && 0 <= j < auction.windows.len()
        && !auction.windows[i].settled && !auction.windows[j].settled {
        law_one_live_window(store, escrow_ref, i, j);
    }
}

// ----- the supply -----
/// What the users of an escrow own and what is outstanding make up the
/// supply of the escrow, and no user owns more than was handed out.
pub proof fn law_supply_is_conserved(store: StoreState, escrow_ref: EscrowRef)
    requires
        store.wf(),
        store.holds(escrow_ref),
    ensures
        total_owned(store.auction(escrow_ref).positions) + store.auction(
            escrow_ref,
        ).escrow.outstanding_fractions == store.auction(escrow_ref).escrow.total_fractions,
        store.auction(escrow_ref).escrow.outstanding_fractions <= store.auction(
            escrow_ref,
        ).escrow.total_fractions,
{
    assert(store.auctions[escrow_ref.index as int].wf());
}

/// The outstanding supply of an escrow never grows: not by one command, and
/// not by any log of commands.
pub proof fn law_outstanding_never_grows(
    store: StoreState,
    log: Seq<(Command, i64)>,
    escrow_ref: EscrowRef,
)
    requires
        store.wf(),
        store.holds(escrow_ref),
    ensures
        store.replay(log).holds(escrow_ref),
        store.replay(log).auction(escrow_ref).escrow.outstanding_fractions <= store.auction(
            escrow_ref,
        ).escrow.outstanding_fractions,
        store.replay(log).auction(escrow_ref).escrow.total_fractions == store.auction(
            escrow_ref,
        ).escrow.total_fractions,
{
    law_replay_keeps_invariant(store, log);
    assert(store.replay(log).auctions[escrow_ref.index as int].escrow.total_fractions
        == store.auctions[escrow_ref.index as int].escrow.total_fractions);
}

// ----- the windows -----
/// An escrow has at most one window that is open or waits for its
/// settlement: two windows on record that are both unsettled are the same window.
pub proof fn law_one_live_window(store: StoreState, escrow_ref: EscrowRef, i: int, j: int)
    requires
        store.wf(),
        store.holds(escrow_ref),
        0 <= i < store.auction(escrow_ref).windows.len(),
        0 <= j < store.auction(escrow_ref).windows.len(),
        !store.auction(escrow_ref).windows[i].settled,
        !store.auction(escrow_ref).windows[j].settled,
    ensures
        i == j,
        i == store.auction(escrow_ref).windows.len() - 1,
{
    let auction = store.auctions[escrow_ref.index as int];
    assert(auction.wf());
    if i < auction.windows.len() - 1 {
        assert(auction.windows[i].settled);
    }
    if j < auction.windows.len() - 1 {
        assert(auction.windows[j].settled);
    }
}

/// The windows of an escrow stand in the order of their indices, and no two
/// of them have the same index.
pub proof fn law_window_indices_ascend(store: StoreState, escrow_ref: EscrowRef, i: int, j: int)
    requires
        store.wf(),
        store.holds(escrow_ref),
        0 <= i < j < store.auction(escrow_ref).windows.len(),
    ensures
        store.auction(escrow_ref).windows[i].window_index < store.auction(
            escrow_ref,
        ).windows[j].window_index,
{
    let auction = store.auctions[escrow_ref.index as int];
    assert(auction.wf());
    assert(auction.windows[i].window_index < auction.windows[j].window_index);
}

// ----- settlement -----
/// The settlement of a window with a winner.
///
/// The custody of the window holds nothing of the winner afterwards. The
/// ledger operations are the payout of exactly the amount of the leading bid
/// to the depositor, then the credit of exactly the fractions on offer to the
/// winner, then, only where the custody held more of the winner than the
/// amount, the return of the rest to the winner. The position of the winner
/// rises by exactly the fractions on offer, the outstanding supply falls by
/// as much, and the position of no other user changes.
pub proof fn law_settlement_with_winner(store: StoreState, args: Settle, now: i64)
    requires
        store.wf(),
        store.settle_verdict(args, now) is None,
        store.auction(args.escrow_ref).window(args.window_index)->Some_0.highest is Some,
    ensures
        ({
            let before = store.auction(args.escrow_ref);
            let after = store.after_settle(args).auction(args.escrow_ref);
            let window = before.window(args.window_index)->Some_0;
            let h = window.highest->Some_0;
            let ops = store.settle_ops(args);
            let held = before.custody(args.window_index, h.bidder);
            &&& after.window(args.window_index) == Some(AuctionWindow { settled: true, ..window })
            &&& after.custody(args.window_index, h.bidder) == 0
            &&& after.bid(args.window_index, h.bidder) is None
            &&& after.owned(h.bidder) == before.owned(h.bidder) + window.fractions_on_offer
            &&& after.escrow.outstanding_fractions == before.escrow.outstanding_fractions
                - window.fractions_on_offer
            &&& forall|other: Key|
                other != h.bidder ==> #[trigger] after.position(other) == before.position(other)
            &&& held >= h.amount
            &&& ops.len() == if held > h.amount {
                3int
            } else {
                2int
            }
            &&& ops[0] == LedgerOp::TransferValue {
                from: Holder::Custody(before.window_ref(args.window_index)),
                to: Holder::Party(before.escrow.depositor),
                amount: h.amount,
            }
            &&& ops[1] == LedgerOp::CreditFractions {
                mint_ref: before.escrow.fraction_mint_ref,
                from_custody: args.escrow_ref,
                recipient: h.bidder,
                amount: window.fractions_on_offer,
            }
            &&& held > h.amount ==> ops[2] == LedgerOp::TransferValue {
                from: Holder::Custody(before.window_ref(args.window_index)),
                to: Holder::Party(h.bidder),
                amount: (held - h.amount) as u64,
            }
        }),
{
    let before = store.auctions[args.escrow_ref.index as int];
    assert(before.wf());
    before.lemma_after_settle_wf(args.window_index, now);
}

/// The custody of a settled window holds nothing of its winner, in every
/// well-formed store and so for as long as the window is on record.
pub proof fn law_winner_holds_no_custody(store: StoreState, escrow_ref: EscrowRef, index: u64)
    requires
        store.wf(),
        store.holds(escrow_ref),
        store.auction(escrow_ref).window(index) matches Some(window) && window.settled
            && window.highest is Some,
    ensures
        store.auction(escrow_ref).custody(
            index,
            store.auction(escrow_ref).window(index)->Some_0.highest->Some_0.bidder,
        ) == 0,
        store.auction(escrow_ref).bid(
            index,
            store.auction(escrow_ref).window(index)->Some_0.highest->Some_0.bidder,
        ) is None,
{
    let auction = store.auctions[escrow_ref.index as int];
    assert(auction.wf());
    let i = auction.window_slot(index);
    let winner = auction.windows[i].highest->Some_0.bidder;
    assert(0 <= i < auction.windows.len() && auction.windows[i].window_index == index);
    if auction.holds_bid(index, winner) {
        let k = auction.bid_slot(index, winner);
        assert(auction.bids[k].window_ref.window_index == auction.windows[i].window_index
            && auction.bids[k].bidder == winner);
    }
}

/// The settlement of a window without a bid moves nothing: it calls for no
/// ledger operation, and the escrow with its outstanding supply, the bids
/// and the positions stay as they are. Only the window is settled.
pub proof fn law_settlement_without_winner(store: StoreState, args: Settle, now: i64)
    requires
        store.wf(),
        store.settle_verdict(args, now) is None,
        store.auction(args.escrow_ref).window(args.window_index)->Some_0.highest is None,
    ensures
        store.settle_ops(args) == Seq::<LedgerOp>::empty(),
        store.after_settle(args).auction(args.escrow_ref).escrow == store.auction(
            args.escrow_ref,
        ).escrow,
        store.after_settle(args).auction(args.escrow_ref).bids == store.auction(
            args.escrow_ref,
        ).bids,
        store.after_settle(args).auction(args.escrow_ref).positions == store.auction(
            args.escrow_ref,
        ).positions,
        store.after_settle(args).auction(args.escrow_ref).window(args.window_index) == Some(
            AuctionWindow {
                settled: true,
                ..store.auction(args.escrow_ref).window(args.window_index)->Some_0
            },
        ),
{
    let before = store.auctions[args.escrow_ref.index as int];
    assert(before.wf());
    before.lemma_after_settle_wf(args.window_index, now);
}

/// A window is settled once: after an accepted settlement, every further
/// settlement of the window is refused with `AlreadySettled`, at any time,
/// and changes nothing.
pub proof fn law_settle_once(store: StoreState, args: Settle, now: i64, later: i64)
    requires
        store.wf(),
        store.settle_verdict(args, now) is None,
    ensures
        store.after_settle(args).settle_verdict(args, later) == Some(ErrorCode::AlreadySettled),
        store.after_settle(args).step(Command::Settle(args), later) == store.after_settle(args),
{
    let before = store.auctions[args.escrow_ref.index as int];
    assert(before.wf());
    before.lemma_after_settle_wf(args.window_index, now);
    let after = before.after_settle(args.window_index);
    assert(after.holds_window(args.window_index));
}

// ----- bidding -----
/// A bid into the open window of a locked escrow, where the window has a
/// leading bid, is accepted exactly where it exceeds that bid; a bid that
/// does not is refused with `BidTooLow`.
pub proof fn law_bid_accepted_iff_higher(store: StoreState, args: PlaceBid, now: i64)
    requires
        store.wf(),
        store.holds(args.escrow_ref),
        store.auction(args.escrow_ref).escrow.status == EscrowStatus::Locked,
        now >= store.auction(args.escrow_ref).escrow.genesis_time,
        store.auction(args.escrow_ref).window(
            store.auction(args.escrow_ref).current_window(now),
        ) matches Some(window) && !window.settled && window.highest is Some,
    ensures
        ({
            let auction = store.auction(args.escrow_ref);
            let h = auction.window(auction.current_window(now))->Some_0.highest->Some_0;
            &&& store.place_bid_verdict(args, now) is None <==> args.amount > h.amount
            &&& args.amount <= h.amount ==> store.place_bid_verdict(args, now) == Some(
                ErrorCode::BidTooLow,
            )
        }),
{
    let auction = store.auctions[args.escrow_ref.index as int];
    assert(auction.wf());
    lemma_current_window_is_open(
        auction.escrow.genesis_time as int,
        auction.escrow.window_length as int,
        now as int,
    );
    let index = auction.current_window(now);
    let i = auction.window_slot(index);
    assert(0 <= i < auction.windows.len() && auction.windows[i].window_index == index);
    assert(auction.window_fits(auction.windows[i]));
}

/// The first bid into a window is accepted whatever its amount, and an
/// accepted bid makes its bidder the leader with exactly its amount, holds
/// exactly what the ledger operation moved more in custody, and never
/// lowers the amount of the bidder.
pub proof fn law_accepted_bid_leads(
    auction: AuctionState,
    index: u64,
    bidder: Key,
    amount: u64,
    now: i64,
)
    requires
        auction.wf(),
        auction.bid_verdict(index, bidder, amount, now) is None,
    ensures
        ({
            let after = auction.after_bid(index, bidder, amount);
            let held = auction.custody(index, bidder);
            &&& after.window(index) matches Some(window) && !window.settled
                && window.spec_highest_bidder() == Some(bidder)
                && window.spec_highest_bid_amount() == Some(amount)
            &&& after.bid(index, bidder) matches Some(bid) && bid.amount == amount
                && bid.custodied_balance == if held > amount {
                held
            } else {
                amount
            }
            &&& auction.bid(index, bidder) matches Some(earlier) ==> earlier.amount < amount
            &&& auction.bid_ops(index, bidder, amount).len() == if amount > held {
                1int
            } else {
                0int
            }
            &&& after.escrow == auction.escrow
            &&& after.positions == auction.positions
        }),
{
    auction.lemma_with_window_wf(index, now);
    let opened = auction.with_window(index);
    let after = opened.with_bid(index, bidder, amount);
    let i = opened.window_slot(index);
    assert(0 <= i < opened.windows.len() && opened.windows[i].window_index == index);
    if !auction.holds_window(index) {
        assert(opened.windows[i] == auction.fresh_window(index));
    }
    opened.lemma_with_bid_wf(index, bidder, amount);
    after.lemma_window_slot(i);
    let at = if opened.holds_bid(index, bidder) {
        opened.bid_slot(index, bidder)
    } else {
        opened.bids.len() as int
    };
    assert(0 <= at < after.bids.len());
    after.lemma_bid_slot(at);
    if auction.holds_bid(index, bidder) {
        let k = auction.bid_slot(index, bidder);
        assert(auction.bid_has_window(k));
        let j = choose|j: int|
            0 <= j < auction.windows.len() && #[trigger] window_covers(
                auction.windows[j],
                auction.bids[k],
            );
        auction.lemma_window_slot(j);
    }
}

// ----- closing -----
/// A depositor that closes an escrow gets everything back and leaves
/// nothing behind: the close calls for the return of the whole supply of
/// fractions and of the asset to the depositor, no fraction was ever handed
/// out, no bid and no custody is on record, and afterwards the escrow is
/// closed and has no window and no bid.
pub proof fn law_close_returns_everything(store: StoreState, args: CloseEscrow)
    requires
        store.wf(),
        store.close_verdict(args) is None,
    ensures
        ({
            let before = store.auction(args.escrow_ref);
            let after = store.after_close(args).auction(args.escrow_ref);
            &&& store.close_ops(args) == seq![
                LedgerOp::CreditFractions {
                    mint_ref: before.escrow.fraction_mint_ref,
                    from_custody: args.escrow_ref,
                    recipient: args.depositor,
                    amount: before.escrow.total_fractions,
                },
                LedgerOp::ReleaseAsset {
                    depositor: args.depositor,
                    asset_ref: before.escrow.asset_ref,
                },
            ]
            &&& before.escrow.outstanding_fractions == before.escrow.total_fractions
            &&& total_owned(before.positions) == 0
            &&& before.bids.len() == 0
            &&& after.escrow.status == EscrowStatus::Closed
            &&& after.windows.len() == 0
            &&& after.bids.len() == 0
        }),
{
    let before = store.auctions[args.escrow_ref.index as int];
    assert(before.wf());
    before.lemma_after_close_wf(args.depositor);
}

/// A closed escrow accepts no further command: every command that names it
/// is refused, and an escrow once closed stays closed.
pub proof fn law_closed_is_final(store: StoreState, command: Command, now: i64)
    requires
        store.wf(),
        !(command is InitializeEscrow),
        store.holds(store.subject(command)),
        store.auction(store.subject(command)).escrow.status == EscrowStatus::Closed,
    ensures
        store.verdict(command, now) == Some(ErrorCode::EscrowClosed),
        store.step(command, now) == store,
{
}

// ----- versions -----
/// Every accepted command raises the version of its escrow by exactly one
/// and leaves every other version as it is; a refused command changes
/// nothing. So the version that a plan saw is the version of the escrow for
/// as long as no command was committed on it, and never again afterwards
/// until the commit: of two commands planned on one escrow at one version,
/// the second to be committed is refused with `VersionConflict`.
pub proof fn law_stale_commit_is_refused(
    state: VersionedState,
    first: Command,
    second: Command,
    now: i64,
    later: i64,
    seen: u64,
)
    requires
        state.wf(),
        state.verdict(first, now, seen) is None,
        state.store.holds(state.store.subject(first)),
        state.store.subject(second) == state.store.subject(first),
        !(second is InitializeEscrow),
    ensures
        state.after(first, now).version(state.store.subject(first)) == seen + 1,
        forall|other: EscrowRef|
            other != state.store.subject(first) && state.store.holds(other) ==> #[trigger] state.after(
                first,
                now,
            ).version(other) == state.version(other),
        state.after(first, now).verdict(second, later, seen) == Some(ErrorCode::VersionConflict),
{
    law_step_keeps_invariant(state.store, first, now);
    state.store.lemma_accepted_grows_by_its_subject(first, now);
}

} // verus!
