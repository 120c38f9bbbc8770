//! The fraction positions of the users of an escrow.

use vstd::prelude::*;
use crate::key::{EscrowRef, Key};

verus! {

/// The fractions that one user has won from one escrow.
#[derive(Clone, Copy, Debug, PartialEq, Eq, Structural)]
pub struct UserPosition {
    /// The escrow that the position belongs to.
    pub escrow_ref: EscrowRef,
    /// The user.
    pub user: Key,
    /// The fractions that the user has won.
    pub fractions_owned: u64,
}

/// The sum of the fractions owned over all the positions of `positions`.
pub open spec fn total_owned(positions: Seq<UserPosition>) -> nat
    decreases positions.len(),
{
    if positions.len() == 0 {
        0
    } else {
        total_owned(positions.drop_last()) + positions.last().fractions_owned as nat
    }
}

/// A new position adds what it owns to the sum.
pub proof fn lemma_total_owned_push(positions: Seq<UserPosition>, position: UserPosition)
    ensures
        total_owned(positions.push(position)) == total_owned(positions)
            + position.fractions_owned as nat,
{
    assert(positions.push(position).drop_last() =~= positions);
}

/// A changed position changes the sum by the difference.
pub proof fn lemma_total_owned_update(positions: Seq<UserPosition>, slot: int, position: UserPosition)
    requires
        0 <= slot < positions.len(),
    ensures
        total_owned(positions.update(slot, position)) + positions[slot].fractions_owned as nat
            == total_owned(positions) + position.fractions_owned as nat,
    decreases positions.len(),
{
    let updated = positions.update(slot, position);
    if slot == positions.len() - 1 {
        assert(updated.drop_last() =~= positions.drop_last());
    } else {
        assert(updated.drop_last() =~= positions.drop_last().update(slot, position));
        lemma_total_owned_update(positions.drop_last(), slot, position);
    }
}

/// No position owns more than all the positions together.
pub proof fn lemma_total_owned_bounds(positions: Seq<UserPosition>, slot: int)
    requires
        0 <= slot < positions.len(),
    ensures
        positions[slot].fractions_owned as nat <= total_owned(positions),
    decreases positions.len(),
{
    if slot < positions.len() - 1 {
        lemma_total_owned_bounds(positions.drop_last(), slot);
    }
}

/// Where the positions together own nothing, none of them owns anything.
pub proof fn lemma_total_owned_zero(positions: Seq<UserPosition>)
    requires
        total_owned(positions) == 0,
    ensures
        forall|slot: int| 0 <= slot < positions.len() ==> positions[slot].fractions_owned == 0,
{
    assert forall|slot: int| 0 <= slot < positions.len() implies positions[slot].fractions_owned
        == 0 by {
        lemma_total_owned_bounds(positions, slot);
    }
}

/// The first `n` positions own no more than all the positions together, and
/// one position more adds what it owns.
pub proof fn lemma_total_owned_prefix(positions: Seq<UserPosition>, n: int)
    requires
        0 <= n <= positions.len(),
    ensures
        total_owned(positions.take(n)) <= total_owned(positions),
        n < positions.len() ==> total_owned(positions.take(n + 1)) == total_owned(
            positions.take(n),
        ) + positions[n].fractions_owned as nat,
    decreases positions.len() - n,
{
    if n < positions.len() {
        assert(positions.take(n + 1).drop_last() =~= positions.take(n));
        lemma_total_owned_prefix(positions, n + 1);
    } else {
        assert(positions.take(n) =~= positions);
    }
}

} // verus!
