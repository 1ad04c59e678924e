//! The per-tick collision feed, as the combat logic consumes it.
//!
//! Each tick the engine's broad-phase hands an attacking hitbox the pairs of
//! colliders currently overlapping it.  The engine resolves each collider of
//! a pair to its parent rigid body and, walking further up, to the fighter
//! the body belongs to (a fighter's blade is a child of the fighter); the
//! combat logic decides which side of the pair is the foreign one and whom,
//! if anyone, to hit.

use vstd::prelude::*;

use crate::player::PlayerState;
use crate::EntityId;

verus! {

/// The fighter a struck body belongs to, with its combat state at the time
/// of the query.
#[derive(Clone, Copy, PartialEq, Eq, Structural, Debug)]
pub struct FighterRef {
    /// The fighter entity; where a `Hit` for this body is addressed.
    pub id: EntityId,
    /// The fighter's state when the feed was read.
    pub state: PlayerState,
}

/// One side of an overlapping pair.
#[derive(Clone, Copy, PartialEq, Eq, Structural, Debug)]
pub struct OverlapSide {
    /// The collider shape on this side.
    pub collider: EntityId,
    /// Its parent rigid body: what was actually struck.
    pub body: EntityId,
    /// The fighter this body belongs to, if it belongs to one.
    pub fighter: Option<FighterRef>,
}

/// One pair of currently overlapping colliders.  The feed promises nothing
/// about which side of the pair is which.
#[derive(Clone, Copy, PartialEq, Eq, Structural, Debug)]
pub struct Overlap {
    pub a: OverlapSide,
    pub b: OverlapSide,
    /// Whether the pair has an active contact this tick.
    pub active: bool,
}

/// The side of `o` that is not the collider `mine`: the struck party.
/// Reading the pair in either order names the same side, as long as exactly
/// one side is `mine` (see `lemma_other_side_order`).
pub open spec fn spec_other_side(o: Overlap, mine: EntityId) -> OverlapSide {
    if o.a.collider == mine {
        o.b
    } else {
        o.a
    }
}

pub fn other_side(o: &Overlap, mine: EntityId) -> (r: OverlapSide)
    ensures
        r == spec_other_side(*o, mine),
{
    if o.a.collider == mine {
        o.b
    } else {
        o.a
    }
}

/// The same pair with its sides exchanged, as the feed may report it.
pub open spec fn spec_swapped(o: Overlap) -> Overlap {
    Overlap { a: o.b, b: o.a, active: o.active }
}

/// The order in which the feed lists the two sides of a pair does not matter:
/// as long as exactly one side is the querying collider, both orders resolve
/// to the same struck side.
pub proof fn lemma_other_side_order(o: Overlap, mine: EntityId)
    requires
        (o.a.collider == mine) != (o.b.collider == mine),
    ensures
        spec_other_side(spec_swapped(o), mine) == spec_other_side(o, mine),
{
}

} // verus!
