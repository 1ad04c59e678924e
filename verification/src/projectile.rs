//! A ranged shot: an independent, fire-and-forget entity with a facing, a
//! one-shot hit flag and a bounded lifetime.

use vstd::prelude::*;

use crate::collision::{other_side, spec_other_side, FighterRef, Overlap, OverlapSide};
use crate::effects::{Directive, Effects, EngineCmd, Envelope};
use crate::geom::Vec2;
use crate::messages::{Knockback, Message};
use crate::EntityId;

verus! {

/// Damage of one projectile hit.
pub const PROJ_DAMAGE: u32 = 3;

/// Knockback magnitude of a projectile hit, thousandths of a unit per
/// second.
pub const PROJ_KNOCK: u32 = 3000;

/// Frames a projectile flies before it is removed.
pub const PROJ_LIFE: u32 = 120;

/// Frames a spent projectile lingers, hidden, before removal, so that the
/// engine is not torn down mid-resolution.
pub const PROJ_TAIL: u32 = 5;

/// How far in front of the firing fighter a projectile appears, thousandths
/// of a unit.
pub const PROJ_OFFSET: u32 = 1250;

/// One projectile in flight.
#[derive(Clone, Copy, PartialEq, Eq, Structural, Debug)]
pub struct Projectile {
    /// Its own entity handle; the `sender` of the hits it deals.
    pub id: EntityId,
    /// Its collider shape, the queried side of its overlap pairs.
    pub collider: EntityId,
    /// The fighter that fired it; never a target of its hit.
    pub owner: EntityId,
    /// Flight direction, and the direction of the knockback it deals.
    pub facing: Vec2,
    /// Latches true on the first hit; no further collision tests after.
    pub hit: bool,
    /// Frames left; the projectile is removed when it reaches 0.
    pub life: u32,
}

impl Projectile {
    /// A projectile as just fired: nothing hit yet, full lifetime.
    pub fn new(id: EntityId, collider: EntityId, owner: EntityId, facing: Vec2) -> (r: Projectile)
        ensures
            r == (Projectile { id, collider, owner, facing, hit: false, life: PROJ_LIFE }),
    {
        Projectile { id, collider, owner, facing, hit: false, life: PROJ_LIFE }
    }

    /// The first overlap this tick that lands: an active contact whose other
    /// side belongs to a fighter other than the projectile's own emitter.
    pub open spec fn spec_first_target(self, overlaps: Seq<Overlap>) -> Option<OverlapSide>
        decreases overlaps.len(),
    {
        if overlaps.len() == 0 {
            None
        } else {
            let other = spec_other_side(overlaps[0], self.collider);
            let lands = overlaps[0].active && match other.fighter {
                Some(f) => f.id != self.owner,
                None => false,
            };
            if lands {
                Some(other)
            } else {
                self.spec_first_target(overlaps.skip(1))
            }
        }
    }

    /// A projectile ignores every message but a stand-down, which latches
    /// its hit flag so it only coasts to despawn.
    pub open spec fn spec_on_message(self, msg: Message) -> Projectile {
        match msg {
            Message::Attack { start } => if !start {
                Projectile { hit: true, ..self }
            } else {
                self
            },
            _ => self,
        }
    }

    pub fn on_message(&mut self, msg: &Message)
        ensures
            *final(self) == old(self).spec_on_message(*msg),
    {
        match *msg {
            Message::Attack { start } => if !start {
                self.hit = true;
            },
            _ => (),
        }
    }

    /// One tick of flight.  At `life == 0` the projectile asks to be
    /// removed and does nothing else.  Otherwise the lifetime counts down;
    /// an already-resolved projectile skips the collision test entirely, and
    /// one that lands its first hit sends a single `Hit`, latches the flag,
    /// hides itself and keeps only a short tail of lifetime.
    pub open spec fn spec_on_update(self, overlaps: Seq<Overlap>) -> (Projectile, Seq<Envelope>, Seq<
        Directive,
    >, bool) {
        if self.life == 0 {
            (
                self,
                Seq::<Envelope>::empty(),
                seq![Directive { to: self.id, cmd: EngineCmd::Despawn }],
                true,
            )
        } else {
            let flown = Projectile { life: (self.life - 1) as u32, ..self };
            if self.hit {
                (flown, Seq::<Envelope>::empty(), Seq::<Directive>::empty(), false)
            } else {
                match self.spec_first_target(overlaps) {
                    Some(other) => (
                        Projectile { life: PROJ_TAIL, hit: true, ..self },
                        seq![
                            Envelope {
                                to: other.fighter->Some_0.id,
                                msg: Message::Hit {
                                    damage: PROJ_DAMAGE,
                                    knockback: Knockback { dir: self.facing, mag: PROJ_KNOCK },
                                    body: other.body,
                                    sender: self.id,
                                },
                            },
                        ],
                        seq![Directive { to: self.id, cmd: EngineCmd::SetVis(false) }],
                        false,
                    ),
                    None => (flown, Seq::<Envelope>::empty(), Seq::<Directive>::empty(), false),
                }
            }
        }
    }

    /// Returns the effects of the tick and whether the projectile is to be
    /// removed from the world now.
    pub fn on_update(&mut self, overlaps: &Vec<Overlap>) -> (r: (Effects, bool))
        ensures
            ({
                let (p, sends, cmds, removed) = old(self).spec_on_update(overlaps@);
                &&& *final(self) == p
                &&& r.0.sends@ == sends
                &&& r.0.cmds@ == cmds
                &&& r.1 == removed
            }),
    {
        if self.life == 0 {
            return (
                Effects {
                    sends: Vec::new(),
                    cmds: crate::effects::vec1(
                        Directive { to: self.id, cmd: EngineCmd::Despawn },
                    ),
                },
                true,
            );
        }
        self.life = self.life - 1;
        if self.hit {
            return (Effects::none(), false);
        }
        let mut found: Option<(OverlapSide, FighterRef)> = None;
        let mut i: usize = 0;
        proof {
            assert(overlaps@.skip(0int) =~= overlaps@);
        }
        while i < overlaps.len()
            invariant
                i <= overlaps@.len(),
                *self == (Projectile { life: self.life, ..*old(self) }),
                match found {
                    None => old(self).spec_first_target(overlaps@) == old(self).spec_first_target(
                        overlaps@.skip(i as int),
                    ),
                    Some((s, f)) => old(self).spec_first_target(overlaps@) == Some(s) && s.fighter
                        == Some(f),
                },
            decreases overlaps@.len() - i,
        {
            if found.is_none() {
                let o = overlaps[i];
                proof {
                    assert(overlaps@.skip(i as int)[0] == overlaps@[i as int]);
                    assert(overlaps@.skip(i as int).skip(1) =~= overlaps@.skip(i as int + 1));
                }
                let other = other_side(&o, self.collider);
                match other.fighter {
                    Some(f) => if o.active && f.id != self.owner {
                        found = Some((other, f));
                    },
                    None => (),
                }
            }
            i = i + 1;
        }
        proof {
            assert(overlaps@.skip(overlaps@.len() as int) =~= Seq::<Overlap>::empty());
        }
        match found {
            Some((other, f)) => {
                self.hit = true;
                self.life = PROJ_TAIL;
                (
                    Effects {
                        sends: crate::effects::vec1(
                            Envelope {
                                to: f.id,
                                msg: Message::Hit {
                                    damage: PROJ_DAMAGE,
                                    knockback: Knockback { dir: self.facing, mag: PROJ_KNOCK },
                                    body: other.body,
                                    sender: self.id,
                                },
                            },
                        ),
                        cmds: crate::effects::vec1(
                            Directive { to: self.id, cmd: EngineCmd::SetVis(false) },
                        ),
                    },
                    false,
                )
            },
            None => (Effects::none(), false),
        }
    }
}

/// Whatever the feed holds and in whatever order, the overlap a projectile
/// accepts belongs to a fighter other than its own emitter.
pub proof fn lemma_first_target_lands(p: Projectile, overlaps: Seq<Overlap>)
    ensures
        p.spec_first_target(overlaps) matches Some(s) ==> (s.fighter matches Some(f) && f.id
            != p.owner),
    decreases overlaps.len(),
{
    if overlaps.len() > 0 {
        lemma_first_target_lands(p, overlaps.skip(1));
    }
}

/// Self-immunity of the projectile: no tick of its flight produces a `Hit`
/// addressed to the fighter that fired it.
pub proof fn lemma_projectile_self_immunity(p: Projectile, overlaps: Seq<Overlap>)
    ensures
        forall|k: int|
            0 <= k < p.spec_on_update(overlaps).1.len() && p.spec_on_update(overlaps).1[k].msg
                is Hit ==> p.spec_on_update(overlaps).1[k].to != p.owner,
{
    lemma_first_target_lands(p, overlaps);
}

} // verus!
