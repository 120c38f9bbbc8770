//! Optimistic concurrency: a store whose escrows carry versions.
//!
//! Commands on one escrow must take effect one after the other. A caller that
//! plans a command, performs its ledger operations and commits it later may
//! find that another command on the same escrow was committed in between.
//! Here every escrow has a version that rises by one with every command
//! committed on it. A plan tells the version that it saw, and a commit is
//! accepted only at that version.

use vstd::prelude::*;
use crate::error::ErrorCode;
use crate::instructions::dispatcher::{commit, plan, Command};
use crate::instructions::Receipt;
use crate::key::EscrowRef;
use crate::laws::law_step_keeps_invariant;
use crate::store::{Store, StoreState};

verus! {

/// What a versioned store holds, as a mathematical state.
pub struct VersionedState {
    /// The store.
    pub store: StoreState,
    /// The versions, the one of escrow `i` in place `i`.
    pub versions: Seq<u64>,
}

impl VersionedState {
    /// The invariant: the store satisfies its invariant, and every escrow
    /// has a version.
    pub open spec fn wf(self) -> bool {
        &&& self.store.wf()
        &&& self.versions.len() == self.store.auctions.len()
    }

    /// The version of the escrow that the reference names; zero for an
    /// escrow that has not been made.
    pub open spec fn version(self, escrow_ref: EscrowRef) -> u64 {
        if self.store.holds(escrow_ref) {
            self.versions[escrow_ref.index as int]
        } else {
            0
        }
    }

    /// Why the command is not committed at the version `seen`, or `None`
    /// where it is.
    ///
    /// In this order: `VersionConflict` where the escrow that the command is
    /// about is not at the version `seen`; the error of the store's verdict
    /// where the store refuses the command; `VersionConflict` where the
    /// escrow has reached the last version.
    pub open spec fn verdict(self, command: Command, now: i64, seen: u64) -> Option<ErrorCode> {
        let subject = self.store.subject(command);
        if self.version(subject) != seen {
            Some(ErrorCode::VersionConflict)
        } else if self.store.verdict(command, now) is Some {
            self.store.verdict(command, now)
        } else if seen == u64::MAX {
            Some(ErrorCode::VersionConflict)
        } else {
            None
        }
    }

    /// The state after the command was committed: the store is as the
    /// command leaves it, and the version of the escrow that the command is
    /// about is one higher. A new escrow starts at version one.
    pub open spec fn after(self, command: Command, now: i64) -> VersionedState {
        let subject = self.store.subject(command);
        VersionedState {
            store: self.store.after(command, now),
            versions: if self.store.holds(subject) {
                self.versions.update(
                    subject.index as int,
                    (self.versions[subject.index as int] + 1) as u64,
                )
            } else {
                self.versions.push(1)
            },
        }
    }
}

/// What a plan comes to: the receipt of the command, and the version of its
/// escrow at which the command was planned.
#[derive(Clone, Debug, PartialEq, Eq)]
pub struct Ticket {
    /// What the command calls for.
    pub receipt: Receipt,
    /// The version that the plan saw.
    pub version: u64,
}

/// A store whose escrows carry versions.
#[derive(Debug)]
pub struct VersionedStore {
    store: Store,
    versions: Vec<u64>,
}

impl View for VersionedStore {
    type V = VersionedState;

    closed spec fn view(&self) -> VersionedState {
        VersionedState { store: self.store@, versions: self.versions@ }
    }
}

impl VersionedStore {
    /// The store without an escrow.
    pub fn new() -> (versioned: VersionedStore)
        ensures
            versioned@.wf(),
            versioned@.store == StoreState::empty(),
            versioned@.versions.len() == 0,
    {
        VersionedStore { store: Store::new(), versions: Vec::new() }
    }

    /// The store, to be read.
    pub fn store(&self) -> (store: &Store)
        ensures
            store@ == self@.store,
    {
        &self.store
    }

    /// The version of the escrow that the reference names; zero for an
    /// escrow that has not been made.
    pub fn version(&self, escrow_ref: EscrowRef) -> (version: u64)
        requires
            self@.wf(),
        ensures
            version == self@.version(escrow_ref),
    {
        if self.store.holds(escrow_ref) {
            self.versions[escrow_ref.index]
        } else {
            0
        }
    }

    /// The escrow that the command is about.
    fn subject(&self, command: &Command) -> (escrow_ref: EscrowRef)
        ensures
            escrow_ref == self@.store.subject(*command),
    {
        match command {
            Command::InitializeEscrow(_) => self.store.next_ref(),
            Command::InitializeUserPosition(args) => args.escrow_ref,
            Command::PlaceBid(args) => args.escrow_ref,
            Command::Settle(args) => args.escrow_ref,
            Command::ReclaimLosingBid(args) => args.window_ref.escrow,
            Command::CloseEscrow(args) => args.escrow_ref,
        }
    }

    /// Whether the store accepts the command at the time `now`, what the
    /// command calls for, and the version of its escrow.
    ///
    /// Accepted exactly where the store accepts the command and its escrow
    /// has not reached the last version; a commit at the version of the
    /// ticket, on the state that the plan saw, is then accepted with the
    /// same receipt.
    pub fn plan(&self, command: &Command, now: i64) -> (r: Result<Ticket, ErrorCode>)
        requires
            self@.wf(),
        ensures
            r is Ok <==> self@.verdict(*command, now, self@.version(self@.store.subject(*command)))
                is None,
            r matches Ok(ticket) ==> ticket.version == self@.version(
                self@.store.subject(*command),
            ) && ticket.receipt.escrow_ref == self@.store.subject(*command)
                && ticket.receipt.ops@ == self@.store.ops(*command, now),
            r matches Err(e) ==> self@.verdict(
                *command,
                now,
                self@.version(self@.store.subject(*command)),
            ) == Some(e),
    {
        let version: u64 = self.version(self.subject(command));
        match plan(&self.store, command, now) {
            Err(e) => Err(e),
            Ok(receipt) => {
                if version == u64::MAX {
                    Err(ErrorCode::VersionConflict)
                } else {
                    Ok(Ticket { receipt, version })
                }
            },
        }
    }

    /// Commits the command at the time `now`, if its escrow is still at the
    /// version `seen`.
    ///
    /// Refused with `VersionConflict` where another command was committed on
    /// the escrow since the plan saw it, and else as the store refuses; the
    /// store and the versions then stay as they are. An accepted command
    /// changes the store as `commit` of the dispatcher does and raises the
    /// version of its escrow by one; no other version changes.
    pub fn commit(&mut self, command: &Command, now: i64, seen: u64) -> (r: Result<
        Receipt,
        ErrorCode,
    >)
        requires
            old(self)@.wf(),
        ensures
            final(self)@.wf(),
            r is Ok <==> old(self)@.verdict(*command, now, seen) is None,
            r matches Ok(receipt) ==> final(self)@ == old(self)@.after(*command, now)
                && receipt.escrow_ref == old(self)@.store.subject(*command) && receipt.ops@
                == old(self)@.store.ops(*command, now),
            r matches Err(e) ==> old(self)@.verdict(*command, now, seen) == Some(e) && final(self)@
                == old(self)@,
    {
        let subject = self.subject(command);
        if self.version(subject) != seen {
            return Err(ErrorCode::VersionConflict);
        }
        let known: bool = self.store.holds(subject);
        if seen == u64::MAX {
            return match plan(&self.store, command, now) {
                Err(e) => Err(e),
                Ok(_) => Err(ErrorCode::VersionConflict),
            };
        }
        let receipt = match commit(&mut self.store, command, now) {
            Err(e) => {
                return Err(e);
            },
            Ok(receipt) => receipt,
        };
        proof {
            law_step_keeps_invariant(old(self)@.store, *command, now);
            old(self)@.store.lemma_accepted_grows_by_its_subject(*command, now);
        }
        if known {
            self.versions.set(subject.index, seen + 1);
        } else {
            self.versions.push(1);
        }
        assert(self@.versions =~= old(self)@.after(*command, now).versions);
        Ok(receipt)
    }
}

} // verus!
