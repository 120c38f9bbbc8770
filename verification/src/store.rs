//! The escrow store.
//!
//! The store keeps the auction of every escrow that was ever made, each under
//! the reference that `create_escrow` gave out for it. A closed escrow keeps
//! its place, so that a reference never comes to name another escrow.

use vstd::prelude::*;
use crate::engine::RicksAuction;
use crate::error::ErrorCode;
use crate::key::{EscrowRef, Key, WindowRef};
use crate::ledger::LedgerOp;
use crate::model::AuctionState;
use crate::state::auction::{AuctionWindow, Bid};
use crate::state::escrow::{Escrow, EscrowParams, EscrowStatus};
use crate::state::user_position::UserPosition;

verus! {

/// What the store holds, as a mathematical state: the auctions, each in the
/// place that its reference names.
pub struct StoreState {
    /// The auctions, the one of escrow `i` in place `i`.
    pub auctions: Seq<AuctionState>,
}

impl StoreState {
    /// What a sequence of auctions holds.
    pub open spec fn of(auctions: Seq<RicksAuction>) -> StoreState {
        StoreState { auctions: Seq::new(auctions.len(), |i: int| auctions[i]@) }
    }

    /// The store without an escrow.
    pub open spec fn empty() -> StoreState {
        StoreState { auctions: Seq::empty() }
    }

    /// Whether the store holds as many escrows as references can name.
    pub open spec fn is_full(self) -> bool {
        self.auctions.len() >= usize::MAX
    }

    /// Whether the reference names an escrow of the store.
    pub open spec fn holds(self, escrow_ref: EscrowRef) -> bool {
        escrow_ref.index < self.auctions.len()
    }

    /// The auction of the escrow that the reference names.
    pub open spec fn auction(self, escrow_ref: EscrowRef) -> AuctionState {
        self.auctions[escrow_ref.index as int]
    }

    /// The store in which the auction of one escrow is replaced.
    pub open spec fn with_auction(self, escrow_ref: EscrowRef, auction: AuctionState) -> StoreState {
        StoreState { auctions: self.auctions.update(escrow_ref.index as int, auction) }
    }

    /// Whether the escrow in place `i` is locked and keyed by this depositor
    /// and this asset.
    pub open spec fn locks_at(self, i: int, depositor: Key, asset_ref: Key) -> bool {
        &&& self.auctions[i].escrow.status == EscrowStatus::Locked
        &&& self.auctions[i].escrow.depositor == depositor
        &&& self.auctions[i].escrow.asset_ref == asset_ref
    }

    /// Whether a locked escrow is keyed by this depositor and this asset.
    pub open spec fn locks_asset(self, depositor: Key, asset_ref: Key) -> bool {
        exists|i: int|
            0 <= i < self.auctions.len() && #[trigger] self.locks_at(i, depositor, asset_ref)
    }

    /// The place of the locked escrow that is keyed by this depositor and this asset.
    pub open spec fn lock_slot(self, depositor: Key, asset_ref: Key) -> int {
        choose|i: int|
            0 <= i < self.auctions.len() && #[trigger] self.locks_at(i, depositor, asset_ref)
    }

    /// No two locked escrows are keyed by the same depositor and asset.
    pub open spec fn locks_are_distinct(self) -> bool {
        forall|i: int, j: int|
            0 <= i < j < self.auctions.len() ==> !(#[trigger] self.locks_at(
                i,
                self.auctions[j].escrow.depositor,
                self.auctions[j].escrow.asset_ref,
            ) && #[trigger] self.locks_at(
                j,
                self.auctions[j].escrow.depositor,
                self.auctions[j].escrow.asset_ref,
            ))
    }

    /// The invariant of the store: every auction satisfies the invariant of
    /// the engine and stands in the place that its reference names, no two
    /// locked escrows have the same key, and every place has a reference.
    pub open spec fn wf(self) -> bool {
        &&& self.auctions.len() <= usize::MAX
        &&& forall|i: int|
            0 <= i < self.auctions.len() ==> (#[trigger] self.auctions[i]).wf()
                && self.auctions[i].escrow_ref.index == i
        &&& self.locks_are_distinct()
    }

    // ----- making an escrow -----
    /// Why no escrow can be made from these parameters, or `None` where one can.
    ///
    /// In this order: `InvalidParams` where the parameters are not valid, or
    /// the store has no place left; `AssetUnavailable` where a locked escrow
    /// has the same depositor and asset.
    pub open spec fn create_verdict(self, params: EscrowParams) -> Option<ErrorCode> {
        if !params.valid() || self.is_full() {
            Some(ErrorCode::InvalidParams)
        } else if self.locks_asset(params.depositor, params.asset_ref) {
            Some(ErrorCode::AssetUnavailable)
        } else {
            None
        }
    }

    /// The reference that the next escrow gets.
    pub open spec fn next_ref(self) -> EscrowRef {
        EscrowRef { index: self.auctions.len() as usize }
    }

    /// The store with the new escrow in the next place.
    pub open spec fn after_create(self, params: EscrowParams) -> StoreState {
        StoreState { auctions: self.auctions.push(AuctionState::initial(self.next_ref(), params)) }
    }

    /// The ledger operations that make the escrow.
    pub open spec fn create_ops(self, params: EscrowParams) -> Seq<LedgerOp> {
        AuctionState::initial_ops(self.next_ref(), params)
    }

    /// Making an escrow keeps the invariant of the store and changes no
    /// other escrow.
    pub proof fn lemma_after_create_wf(self, params: EscrowParams)
        requires
            self.wf(),
            self.create_verdict(params) is None,
        ensures
            self.after_create(params).wf(),
            self.after_create(params).holds(self.next_ref()),
            self.after_create(params).auction(self.next_ref()) == AuctionState::initial(
                self.next_ref(),
                params,
            ),
            forall|i: int|
                0 <= i < self.auctions.len() ==> #[trigger] self.after_create(params).auctions[i]
                    == self.auctions[i],
    {
        let next = self.after_create(params);
        let n = self.auctions.len() as int;
        AuctionState::lemma_initial_wf(self.next_ref(), params);
        assert forall|i: int, j: int| 0 <= i < j < next.auctions.len() implies !(
        #[trigger] next.locks_at(
            i,
            next.auctions[j].escrow.depositor,
            next.auctions[j].escrow.asset_ref,
        ) && #[trigger] next.locks_at(
            j,
            next.auctions[j].escrow.depositor,
            next.auctions[j].escrow.asset_ref,
        )) by {
            if j < n {
                assert(!(self.locks_at(
                    i,
                    self.auctions[j].escrow.depositor,
                    self.auctions[j].escrow.asset_ref,
                ) && self.locks_at(
                    j,
                    self.auctions[j].escrow.depositor,
                    self.auctions[j].escrow.asset_ref,
                )));
            } else {
                assert(!self.locks_at(i, params.depositor, params.asset_ref));
            }
        }
    }

    /// Replacing the auction of an escrow by a later state of that escrow
    /// keeps the invariant of the store: the later state satisfies the
    /// invariant of the engine, has the same reference, depositor and asset,
    /// and is locked only if the earlier state was.
    pub proof fn lemma_with_auction_wf(self, escrow_ref: EscrowRef, auction: AuctionState)
        requires
            self.wf(),
            self.holds(escrow_ref),
            auction.wf(),
            auction.escrow_ref == escrow_ref,
            auction.escrow.depositor == self.auction(escrow_ref).escrow.depositor,
            auction.escrow.asset_ref == self.auction(escrow_ref).escrow.asset_ref,
            auction.escrow.status == EscrowStatus::Locked ==> self.auction(escrow_ref).escrow.status
                == EscrowStatus::Locked,
        ensures
            self.with_auction(escrow_ref, auction).wf(),
    {
        let next = self.with_auction(escrow_ref, auction);
        assert forall|i: int, j: int| 0 <= i < j < next.auctions.len() implies !(
        #[trigger] next.locks_at(
            i,
            next.auctions[j].escrow.depositor,
            next.auctions[j].escrow.asset_ref,
        ) && #[trigger] next.locks_at(
            j,
            next.auctions[j].escrow.depositor,
            next.auctions[j].escrow.asset_ref,
        )) by {
            assert(!(self.locks_at(
                i,
                self.auctions[j].escrow.depositor,
                self.auctions[j].escrow.asset_ref,
            ) && self.locks_at(
                j,
                self.auctions[j].escrow.depositor,
                self.auctions[j].escrow.asset_ref,
            )));
        }
    }
}

/// The escrow store.
///
/// Its view is the `StoreState` that its auctions make up. Every value
/// satisfies the invariant `StoreState::wf`: it is made by `new`, and every
/// method keeps it.
#[derive(Debug)]
pub struct Store {
    auctions: Vec<RicksAuction>,
}

impl View for Store {
    type V = StoreState;

    closed spec fn view(&self) -> StoreState {
        StoreState::of(self.auctions@)
    }
}

impl Store {
    /// The store without an escrow.
    pub fn new() -> (store: Store)
        ensures
            store@ == StoreState::empty(),
            store@.wf(),
    {
        let store = Store { auctions: Vec::new() };
        assert(store@.auctions =~= Seq::empty());
        store
    }

    /// The number of escrows that were ever made.
    pub fn escrow_count(&self) -> (n: usize)
        ensures
            n == self@.auctions.len(),
    {
        self.auctions.len()
    }

    /// The reference that the next escrow gets.
    pub fn next_ref(&self) -> (escrow_ref: EscrowRef)
        ensures
            escrow_ref == self@.next_ref(),
    {
        EscrowRef { index: self.auctions.len() }
    }

    /// Whether the reference names an escrow of the store.
    pub fn holds(&self, escrow_ref: EscrowRef) -> (held: bool)
        ensures
            held == self@.holds(escrow_ref),
    {
        escrow_ref.index < self.auctions.len()
    }

    /// The auction of the escrow that the reference names, if it names one.
    pub fn auction(&self, escrow_ref: EscrowRef) -> (r: Option<&RicksAuction>)
        ensures
            r is Some <==> self@.holds(escrow_ref),
            r matches Some(auction) ==> auction@ == self@.auction(escrow_ref),
    {
        if escrow_ref.index < self.auctions.len() {
            Some(&self.auctions[escrow_ref.index])
        } else {
            None
        }
    }

    /// The auction of the escrow that the reference names, to be changed in place.
    pub(crate) fn auction_mut(&mut self, escrow_ref: EscrowRef) -> (auction: &mut RicksAuction)
        requires
            old(self)@.holds(escrow_ref),
        ensures
            auction@ == old(self)@.auction(escrow_ref),
            final(self)@.auctions =~= old(self)@.auctions.update(
                escrow_ref.index as int,
                final(auction)@,
            ),
    {
        &mut self.auctions[escrow_ref.index]
    }

    /// The locked escrow that is keyed by this depositor and this asset, if
    /// there is one.
    pub fn find_escrow(&self, depositor: Key, asset_ref: Key) -> (r: Option<EscrowRef>)
        requires
            self@.wf(),
        ensures
            r is Some <==> self@.locks_asset(depositor, asset_ref),
            r matches Some(escrow_ref) ==> self@.holds(escrow_ref) && self@.locks_at(
                escrow_ref.index as int,
                depositor,
                asset_ref,
            ),
    {
        let mut i: usize = 0;
        while i < self.auctions.len()
            invariant
                i <= self.auctions.len(),
                forall|j: int| 0 <= j < i ==> !#[trigger] self@.locks_at(j, depositor, asset_ref),
            decreases self.auctions.len() - i,
        {
            let escrow = self.auctions[i].escrow();
            if escrow.is_locked() && escrow.depositor == depositor && escrow.asset_ref
                == asset_ref {
                assert(self@.locks_at(i as int, depositor, asset_ref));
                return Some(EscrowRef { index: i });
            }
            i = i + 1;
        }
        None
    }

    /// Whether an escrow can be made from these parameters, and what making
    /// it would call for.
    ///
    /// Accepted exactly where `create_escrow` accepts, with the same ledger
    /// operations, and refused with the same error where it refuses.
    pub fn plan_create(&self, params: &EscrowParams) -> (r: Result<Vec<LedgerOp>, ErrorCode>)
        requires
            self@.wf(),
        ensures
            r is Ok <==> self@.create_verdict(*params) is None,
            r matches Ok(ops) ==> ops@ == self@.create_ops(*params),
            r matches Err(e) ==> self@.create_verdict(*params) == Some(e),
    {
        match params.validate() {
            Err(e) => {
                return Err(e);
            },
            Ok(()) => {},
        }
        if self.auctions.len() == usize::MAX {
            return Err(ErrorCode::InvalidParams);
        }
        if self.find_escrow(params.depositor, params.asset_ref).is_some() {
            return Err(ErrorCode::AssetUnavailable);
        }
        let mut ops: Vec<LedgerOp> = Vec::new();
        ops.push(LedgerOp::LockAsset { depositor: params.depositor, asset_ref: params.asset_ref });
        ops.push(
            LedgerOp::MintFractions {
                mint_ref: params.fraction_mint_ref,
                to_custody: EscrowRef { index: self.auctions.len() },
                amount: params.total_fractions,
            },
        );
        assert(ops@ =~= self@.create_ops(*params));
        Ok(ops)
    }

    /// Makes an escrow and gives out its reference.
    ///
    /// Refused with `InvalidParams` where the supply, the offer per window or
    /// the window length is zero, a window offers more than the supply, or
    /// the store has no place left, and with `AssetUnavailable` where a locked escrow has the same depositor
    /// and asset; the store then stays as it is. The new escrow is locked,
    /// has the whole supply outstanding and no window, bid or position, and
    /// no other escrow changes.
    pub fn create_escrow(&mut self, params: &EscrowParams) -> (r: Result<EscrowRef, ErrorCode>)
        requires
            old(self)@.wf(),
        ensures
            final(self)@.wf(),
            r is Ok <==> old(self)@.create_verdict(*params) is None,
            r matches Ok(escrow_ref) ==> escrow_ref == old(self)@.next_ref() && final(self)@
                == old(self)@.after_create(*params),
            r matches Err(e) ==> old(self)@.create_verdict(*params) == Some(e) && final(self)@
                == old(self)@,
    {
        match params.validate() {
            Err(e) => {
                return Err(e);
            },
            Ok(()) => {},
        }
        if self.auctions.len() == usize::MAX {
            return Err(ErrorCode::InvalidParams);
        }
        if self.find_escrow(params.depositor, params.asset_ref).is_some() {
            return Err(ErrorCode::AssetUnavailable);
        }
        let escrow_ref = EscrowRef { index: self.auctions.len() };
        match RicksAuction::new(escrow_ref, params) {
            Err(e) => Err(e),
            Ok(auction) => {
                proof {
                    self@.lemma_after_create_wf(*params);
                }
                self.auctions.push(auction);
                assert(self@.auctions =~= old(self)@.after_create(*params).auctions);
                Ok(escrow_ref)
            },
        }
    }

    /// The record of the escrow that the reference names, if it names one.
    pub fn get_escrow(&self, escrow_ref: EscrowRef) -> (r: Option<Escrow>)
        ensures
            r is Some <==> self@.holds(escrow_ref),
            r matches Some(escrow) ==> escrow == self@.auction(escrow_ref).escrow,
    {
        match self.auction(escrow_ref) {
            Some(auction) => Some(auction.escrow()),
            None => None,
        }
    }

    /// The position of `user` in the escrow, if the reference names an escrow
    /// and `user` has a position in it.
    pub fn get_position(&self, escrow_ref: EscrowRef, user: Key) -> (r: Option<UserPosition>)
        requires
            self@.wf(),
        ensures
            r == if self@.holds(escrow_ref) {
                self@.auction(escrow_ref).position(user)
            } else {
                None
            },
    {
        match self.auction(escrow_ref) {
            Some(auction) => auction.get_position(user),
            None => None,
        }
    }

    /// The window that the reference names, if it is on record.
    pub fn get_window(&self, window_ref: WindowRef) -> (r: Option<AuctionWindow>)
        requires
            self@.wf(),
        ensures
            r == if self@.holds(window_ref.escrow) {
                self@.auction(window_ref.escrow).window(window_ref.window_index)
            } else {
                None
            },
    {
        match self.auction(window_ref.escrow) {
            Some(auction) => auction.get_window(window_ref.window_index),
            None => None,
        }
    }

    /// The live bid of `bidder` in the window that the reference names, if
    /// there is one.
    pub fn get_bid(&self, window_ref: WindowRef, bidder: Key) -> (r: Option<Bid>)
        requires
            self@.wf(),
        ensures
            r == if self@.holds(window_ref.escrow) {
                self@.auction(window_ref.escrow).bid(window_ref.window_index, bidder)
            } else {
                None
            },
    {
        match self.auction(window_ref.escrow) {
            Some(auction) => auction.get_bid(window_ref.window_index, bidder),
            None => None,
        }
    }

    /// The window with this index of the escrow: the one on record, or a new
    /// one where the window can be opened at the time `now`.
    ///
    /// Refused with `InvalidParams` where the reference names no escrow, and
    /// else as `RicksAuction::get_or_open_window` refuses; the store then
    /// stays as it is. No other escrow changes.
    pub fn get_or_open_window(&mut self, escrow_ref: EscrowRef, index: u64, now: i64) -> (r: Result<
        AuctionWindow,
        ErrorCode,
    >)
        requires
            old(self)@.wf(),
        ensures
            final(self)@.wf(),
            r is Ok <==> old(self)@.holds(escrow_ref) && old(self)@.auction(
                escrow_ref,
            ).window_verdict(index, now) is None,
            r matches Ok(window) ==> final(self)@ == old(self)@.with_auction(
                escrow_ref,
                old(self)@.auction(escrow_ref).with_window(index),
            ) && Some(window) == final(self)@.auction(escrow_ref).window(index),
            r matches Err(e) ==> final(self)@ == old(self)@ && e == if old(self)@.holds(
                escrow_ref,
            ) {
                old(self)@.auction(escrow_ref).window_verdict(index, now)->Some_0
            } else {
                ErrorCode::InvalidParams
            },
    {
        if !self.holds(escrow_ref) {
            return Err(ErrorCode::InvalidParams);
        }
        let auction = self.auction_mut(escrow_ref);
        let r = auction.get_or_open_window(index, now);
        proof {
            let before = old(self)@.auction(escrow_ref);
            if r is Ok {
                old(self)@.lemma_with_auction_wf(escrow_ref, before.with_window(index));
            } else {
                assert(self@.auctions =~= old(self)@.auctions);
            }
        }
        r
    }

    /// The position of `user` in the escrow: the one on record, or a new one
    /// that owns nothing where none is on record.
    ///
    /// Refused with `InvalidParams` where the reference names no escrow, and
    /// with `EscrowClosed` where no position is on record and the escrow is
    /// closed; the store then stays as it is. No other escrow changes.
    pub fn upsert_position(&mut self, escrow_ref: EscrowRef, user: Key) -> (r: Result<
        UserPosition,
        ErrorCode,
    >)
        requires
            old(self)@.wf(),
        ensures
            final(self)@.wf(),
            r is Ok <==> old(self)@.holds(escrow_ref) && old(self)@.auction(
                escrow_ref,
            ).upsert_verdict(user) is None,
            r matches Ok(position) ==> final(self)@ == old(self)@.with_auction(
                escrow_ref,
                old(self)@.auction(escrow_ref).with_upserted_position(user),
            ) && Some(position) == final(self)@.auction(escrow_ref).position(user),
            r matches Err(e) ==> final(self)@ == old(self)@ && e == if old(self)@.holds(
                escrow_ref,
            ) {
                old(self)@.auction(escrow_ref).upsert_verdict(user)->Some_0
            } else {
                ErrorCode::InvalidParams
            },
    {
        if !self.holds(escrow_ref) {
            return Err(ErrorCode::InvalidParams);
        }
        let auction = self.auction_mut(escrow_ref);
        let r = auction.upsert_position(user);
        proof {
            let before = old(self)@.auction(escrow_ref);
            if r is Ok {
                old(self)@.lemma_with_auction_wf(escrow_ref, before.with_upserted_position(user));
            } else {
                assert(self@.auctions =~= old(self)@.auctions);
            }
        }
        r
    }

    /// Makes the store again that these auctions were read from, each in the
    /// place that its reference names.
    ///
    /// Accepted exactly where the auctions satisfy the invariant of the
    /// store, `StoreState::wf`: the auction in place `i` has the reference
    /// `i`, and no two locked escrows have the same depositor and asset. Any
    /// other auctions are refused with `InvalidParams`.
    pub fn restore(auctions: Vec<RicksAuction>) -> (r: Result<Store, ErrorCode>)
        requires
            forall|i: int| 0 <= i < auctions.len() ==> (#[trigger] auctions[i])@.wf(),
        ensures
            r is Ok <==> StoreState::of(auctions@).wf(),
            r matches Ok(store) ==> store@ == StoreState::of(auctions@),
            r matches Err(e) ==> e == ErrorCode::InvalidParams,
    {
        let ghost target = StoreState::of(auctions@);
        let store = Store { auctions };
        let mut j: usize = 0;
        while j < store.auctions.len()
            invariant
                j <= store.auctions.len(),
                store@ == target,
                target == StoreState::of(auctions@),
                store@.auctions.len() == store.auctions.len(),
                forall|i: int| 0 <= i < store@.auctions.len() ==> (#[trigger] store@.auctions[i]).wf(),
                forall|i: int| 0 <= i < j ==> (#[trigger] store@.auctions[i]).escrow_ref.index == i,
                forall|a: int, b: int|
                    0 <= a < b < j ==> !(#[trigger] store@.locks_at(
                        a,
                        store@.auctions[b].escrow.depositor,
                        store@.auctions[b].escrow.asset_ref,
                    ) && #[trigger] store@.locks_at(
                        b,
                        store@.auctions[b].escrow.depositor,
                        store@.auctions[b].escrow.asset_ref,
                    )),
            decreases store.auctions.len() - j,
        {
            let escrow = store.auctions[j].escrow();
            if store.auctions[j].escrow_ref().index != j {
                assert(store@.auctions[j as int].escrow_ref.index != j);
                return Err(ErrorCode::InvalidParams);
            }
            if escrow.is_locked() {
                let mut a: usize = 0;
                while a < j
                    invariant
                        a <= j,
                        j < store.auctions.len(),
                        store@ == target,
                        target == StoreState::of(auctions@),
                        store@.auctions.len() == store.auctions.len(),
                        escrow == store@.auctions[j as int].escrow,
                        escrow.status == EscrowStatus::Locked,
                        forall|c: int|
                            0 <= c < a ==> !#[trigger] store@.locks_at(
                                c,
                                escrow.depositor,
                                escrow.asset_ref,
                            ),
                    decreases j - a,
                {
                    let earlier = store.auctions[a].escrow();
                    if earlier.is_locked() && earlier.depositor == escrow.depositor
                        && earlier.asset_ref == escrow.asset_ref {
                        assert(store@.locks_at(a as int, escrow.depositor, escrow.asset_ref)
                            && store@.locks_at(j as int, escrow.depositor, escrow.asset_ref));
                        return Err(ErrorCode::InvalidParams);
                    }
                    a = a + 1;
                }
            }
            j = j + 1;
        }
        Ok(store)
    }
}

} // verus!
