//! Identities and references.

use vstd::prelude::*;

verus! {

/// A 256-bit identity: a participant, an asset or a mint on the outside ledger.
///
/// The four words hold the identity's 32 bytes; two keys are the same identity
/// exactly when all four words agree.
#[derive(Clone, Copy, Debug, PartialEq, Eq, Hash, Structural)]
pub struct Key {
    pub w0: u64,
    pub w1: u64,
    pub w2: u64,
    pub w3: u64,
}

impl Key {
    /// The key made of the four given words.
    pub fn new(w0: u64, w1: u64, w2: u64, w3: u64) -> (key: Key)
        ensures
            key == (Key { w0, w1, w2, w3 }),
    {
        Key { w0, w1, w2, w3 }
    }
}

/// Names one escrow of a store: the place of its record.
#[derive(Clone, Copy, Debug, PartialEq, Eq, Hash, Structural)]
pub struct EscrowRef {
    /// The place of the escrow in its store, counted from zero.
    pub index: usize,
}

/// Names one auction window: an escrow and the window's index in its schedule.
#[derive(Clone, Copy, Debug, PartialEq, Eq, Hash, Structural)]
pub struct WindowRef {
    /// The escrow whose schedule the window belongs to.
    pub escrow: EscrowRef,
    /// The window's place in the schedule.
    pub window_index: u64,
}

} // verus!
