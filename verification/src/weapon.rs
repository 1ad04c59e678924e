//! The melee weapon: a hitbox child-attached to one fighter, normally a
//! hidden sensor, swept through an arc while the owner is attacking.
//!
//! The collision-feed policy is deliberate and uniform here: the melee sweep
//! processes every overlapping pair without asking for an active contact,
//! while the riposte and the projectile require one.

use vstd::prelude::*;

use crate::class::Class;
use crate::collision::{other_side, spec_other_side, FighterRef, Overlap, OverlapSide};
use crate::effects::{vec1, vec3, Directive, Effects, EngineCmd, Envelope};
use crate::geom::Vec2;
use crate::messages::{Knockback, Message};
use crate::player::PlayerState;
use crate::EntityId;

verus! {

/// The weapon's rest orientation, thousandths of a full turn: a quarter turn
/// back from forward.
pub const WEAPON_REST_TURN: i32 = -250;

/// One fighter's melee weapon.  It holds no swing counter of its own: each
/// tick it is handed its owner's state and acts on the frame found there.
#[derive(Clone, Copy, PartialEq, Eq, Structural, Debug)]
pub struct Weapon {
    /// Its own rigid body handle; the `sender` of the hits it deals.
    pub id: EntityId,
    /// The owning fighter.
    pub player: EntityId,
    /// Its collider shape, the queried side of its overlap pairs.
    pub collider: EntityId,
    /// Copy of the owner's class, for the tuning table.
    pub class: Class,
    /// Whether the blade is out.  A parried attacker's weapon is put away,
    /// which is what stops its remaining swing frames from hitting.
    pub vis: bool,
}

impl Weapon {
    /// A weapon as created with its fighter: put away.
    pub fn new(id: EntityId, player: EntityId, collider: EntityId, class: Class) -> (r: Weapon)
        ensures
            r == (Weapon { id, player, collider, class, vis: false }),
    {
        Weapon { id, player, collider, class, vis: false }
    }

    /// Restoring puts the blade away: hidden, back at its rest orientation,
    /// and a pure sensor again.  Unconditional, however far through a swing
    /// it was.
    pub open spec fn spec_restore(self) -> (Weapon, Seq<Directive>) {
        (
            Weapon { vis: false, ..self },
            seq![
                Directive { to: self.id, cmd: EngineCmd::SetVis(false) },
                Directive { to: self.id, cmd: EngineCmd::SetRotation { milliturns: WEAPON_REST_TURN } },
                Directive { to: self.id, cmd: EngineCmd::SetSensor(true) },
            ],
        )
    }

    pub fn restore_weapon(&mut self) -> (r: Effects)
        ensures
            *final(self) == old(self).spec_restore().0,
            r.sends@ == Seq::<Envelope>::empty(),
            r.cmds@ == old(self).spec_restore().1,
    {
        self.vis = false;
        Effects {
            sends: Vec::new(),
            cmds: vec3(
                Directive { to: self.id, cmd: EngineCmd::SetVis(false) },
                Directive { to: self.id, cmd: EngineCmd::SetRotation { milliturns: WEAPON_REST_TURN } },
                Directive { to: self.id, cmd: EngineCmd::SetSensor(true) },
            ),
        }
    }

    /// The owner announced a valid swing: the blade comes out.
    pub open spec fn spec_start_melee_attack(self) -> (Weapon, Seq<Directive>) {
        (
            Weapon { vis: true, ..self },
            seq![Directive { to: self.id, cmd: EngineCmd::SetVis(true) }],
        )
    }

    pub fn start_melee_attack(&mut self) -> (r: Effects)
        ensures
            *final(self) == old(self).spec_start_melee_attack().0,
            r.sends@ == Seq::<Envelope>::empty(),
            r.cmds@ == old(self).spec_start_melee_attack().1,
    {
        self.vis = true;
        Effects {
            sends: Vec::new(),
            cmds: vec1(Directive { to: self.id, cmd: EngineCmd::SetVis(true) }),
        }
    }

    /// A weapon reacts only to its owner's `Attack` messages: begin the
    /// swing, or put the blade away.
    pub open spec fn spec_on_message(self, msg: Message) -> (Weapon, Seq<Directive>) {
        match msg {
            Message::Attack { start } => if start {
                self.spec_start_melee_attack()
            } else {
                self.spec_restore()
            },
            _ => (self, Seq::<Directive>::empty()),
        }
    }

    pub fn on_message(&mut self, msg: &Message) -> (r: Effects)
        ensures
            *final(self) == old(self).spec_on_message(*msg).0,
            r.sends@ == Seq::<Envelope>::empty(),
            r.cmds@ == old(self).spec_on_message(*msg).1,
    {
        match *msg {
            Message::Attack { start } => if start {
                self.start_melee_attack()
            } else {
                self.restore_weapon()
            },
            _ => Effects::none(),
        }
    }

    /// The messages one landed pair produces: the `Hit` itself and, for a
    /// Fighter-class attacker whose victim is neither stunned nor dead, the
    /// banked charge that precedes it.
    pub open spec fn spec_hit_envelopes(self, facing: Vec2, other: OverlapSide, f: FighterRef) -> Seq<
        Envelope,
    > {
        let prof = self.class.profile_spec();
        let hit = Envelope {
            to: f.id,
            msg: Message::Hit {
                damage: prof.damage,
                knockback: Knockback { dir: facing, mag: prof.knockback },
                body: other.body,
                sender: self.id,
            },
        };
        if self.class is Fighter && !(f.state is Hit) && !(f.state is Dead) {
            seq![Envelope { to: self.player, msg: Message::Charges { delta: 1 } }, hit]
        } else {
            seq![hit]
        }
    }

    /// The hits of one sweep tick, walking the overlapping pairs in feed
    /// order.  A pair is skipped when its other side bears no fighter, when
    /// that fighter is the weapon's own bearer, or when that body was
    /// already struck this tick (`struck` lists the bodies hit so far): each
    /// distinct body is hit once per tick.
    pub open spec fn spec_sweep_hits(
        self,
        facing: Vec2,
        overlaps: Seq<Overlap>,
        struck: Seq<EntityId>,
    ) -> Seq<Envelope>
        decreases overlaps.len(),
    {
        if overlaps.len() == 0 {
            Seq::<Envelope>::empty()
        } else {
            let other = spec_other_side(overlaps[0], self.collider);
            let rest = overlaps.skip(1);
            match other.fighter {
                Some(f) => if f.id == self.player || struck.contains(other.body) {
                    self.spec_sweep_hits(facing, rest, struck)
                } else {
                    self.spec_hit_envelopes(facing, other, f) + self.spec_sweep_hits(
                        facing,
                        rest,
                        struck.push(other.body),
                    )
                },
                None => self.spec_sweep_hits(facing, rest, struck),
            }
        }
    }

    /// One tick of an attack at frame `frame`.  A put-away blade does
    /// nothing — that is how being parried interrupts the rest of the
    /// swing.  Through the active interval the blade sweeps by the class's
    /// angular step and deals this tick's hits; through the end lag it
    /// holds still.
    pub open spec fn spec_cont_attack(self, frame: i32, facing: Vec2, overlaps: Seq<Overlap>) -> (
        Weapon,
        Seq<Envelope>,
        Seq<Directive>,
    ) {
        let prof = self.class.profile_spec();
        if !self.vis {
            (self, Seq::<Envelope>::empty(), Seq::<Directive>::empty())
        } else if frame <= prof.interval {
            (
                self,
                self.spec_sweep_hits(facing, overlaps, Seq::<EntityId>::empty()),
                seq![
                    Directive {
                        to: self.id,
                        cmd: EngineCmd::Rotate { milliturns: prof.sweep as i32 },
                    },
                ],
            )
        } else {
            (self, Seq::<Envelope>::empty(), Seq::<Directive>::empty())
        }
    }

    pub fn cont_attack(&self, frame: i32, facing: Vec2, overlaps: &Vec<Overlap>) -> (r: Effects)
        ensures
            ({
                let (w, sends, cmds) = self.spec_cont_attack(frame, facing, overlaps@);
                &&& w == *self
                &&& r.sends@ == sends
                &&& r.cmds@ == cmds
            }),
    {
        let prof = self.class.profile();
        if !self.vis {
            return Effects::none();
        }
        if frame > prof.interval {
            return Effects::none();
        }
        let mut sends: Vec<Envelope> = Vec::new();
        let mut struck: Vec<EntityId> = Vec::new();
        let mut i: usize = 0;
        proof {
            assert(overlaps@.skip(0int) =~= overlaps@);
            assert(Seq::<Envelope>::empty() + self.spec_sweep_hits(
                facing,
                overlaps@,
                Seq::<EntityId>::empty(),
            ) =~= self.spec_sweep_hits(facing, overlaps@, Seq::<EntityId>::empty()));
        }
        while i < overlaps.len()
            invariant
                i <= overlaps@.len(),
                prof == self.class.profile_spec(),
                self.spec_sweep_hits(facing, overlaps@, Seq::<EntityId>::empty()) == sends@
                    + self.spec_sweep_hits(facing, overlaps@.skip(i as int), struck@),
            decreases overlaps@.len() - i,
        {
            let o = overlaps[i];
            proof {
                assert(overlaps@.skip(i as int)[0] == overlaps@[i as int]);
                assert(overlaps@.skip(i as int).skip(1) =~= overlaps@.skip(i as int + 1));
            }
            let other = other_side(&o, self.collider);
            match other.fighter {
                Some(f) => {
                    if f.id != self.player && !contains_id(&struck, other.body) {
                        let ghost sends_before = sends@;
                        let ghost struck_before = struck@;
                        let stunned = match f.state {
                            PlayerState::Hit(_) => true,
                            PlayerState::Dead(_) => true,
                            _ => false,
                        };
                        let is_fighter_class = match self.class {
                            Class::Fighter => true,
                            _ => false,
                        };
                        let charge_env = Envelope {
                            to: self.player,
                            msg: Message::Charges { delta: 1 },
                        };
                        let hit_env = Envelope {
                            to: f.id,
                            msg: Message::Hit {
                                damage: prof.damage,
                                knockback: Knockback { dir: facing, mag: prof.knockback },
                                body: other.body,
                                sender: self.id,
                            },
                        };
                        if is_fighter_class && !stunned {
                            sends.push(charge_env);
                        }
                        sends.push(hit_env);
                        struck.push(other.body);
                        proof {
                            let hits = self.spec_hit_envelopes(facing, other, f);
                            let rest = self.spec_sweep_hits(
                                facing,
                                overlaps@.skip(i as int + 1),
                                struck@,
                            );
                            assert(sends@ =~= sends_before + hits);
                            assert(self.spec_sweep_hits(facing, overlaps@.skip(i as int), struck_before)
                                == hits + rest);
                            assert(sends@ + rest =~= (sends_before + hits) + rest);
                            assert((sends_before + hits) + rest =~= sends_before + (hits + rest));
                        }
                    }
                },
                None => (),
            }
            i = i + 1;
        }
        proof {
            assert(overlaps@.skip(overlaps@.len() as int) =~= Seq::<Overlap>::empty());
            assert(sends@ + Seq::<Envelope>::empty() =~= sends@);
        }
        Effects {
            sends,
            cmds: vec1(
                Directive { to: self.id, cmd: EngineCmd::Rotate { milliturns: prof.sweep as i32 } },
            ),
        }
    }

    /// One tick of the weapon: it reads its owner's state and, while the
    /// owner is mid-swing, continues the attack; in every other state it
    /// rests.
    pub open spec fn spec_on_update(
        self,
        owner_state: PlayerState,
        facing: Vec2,
        overlaps: Seq<Overlap>,
    ) -> (Weapon, Seq<Envelope>, Seq<Directive>) {
        match owner_state {
            PlayerState::Attacking(frame) => self.spec_cont_attack(frame, facing, overlaps),
            _ => (self, Seq::<Envelope>::empty(), Seq::<Directive>::empty()),
        }
    }

    pub fn on_update(&self, owner_state: PlayerState, facing: Vec2, overlaps: &Vec<Overlap>) -> (r:
        Effects)
        ensures
            ({
                let (w, sends, cmds) = self.spec_on_update(owner_state, facing, overlaps@);
                &&& w == *self
                &&& r.sends@ == sends
                &&& r.cmds@ == cmds
            }),
    {
        match owner_state {
            PlayerState::Attacking(frame) => self.cont_attack(frame, facing, overlaps),
            _ => Effects::none(),
        }
    }
}

/// Self-immunity of the sweep: in whatever order the feed reports its
/// pairs, no `Hit` the sweep produces is addressed to the weapon's own
/// bearer.
pub proof fn lemma_sweep_self_immunity(
    w: Weapon,
    facing: Vec2,
    overlaps: Seq<Overlap>,
    struck: Seq<EntityId>,
)
    ensures
        forall|k: int|
            0 <= k < w.spec_sweep_hits(facing, overlaps, struck).len() && w.spec_sweep_hits(
                facing,
                overlaps,
                struck,
            )[k].msg is Hit ==> w.spec_sweep_hits(facing, overlaps, struck)[k].to != w.player,
    decreases overlaps.len(),
{
    if overlaps.len() > 0 {
        let other = spec_other_side(overlaps[0], w.collider);
        let rest = overlaps.skip(1);
        match other.fighter {
            Some(f) => {
                if f.id == w.player || struck.contains(other.body) {
                    lemma_sweep_self_immunity(w, facing, rest, struck);
                } else {
                    lemma_sweep_self_immunity(w, facing, rest, struck.push(other.body));
                }
            },
            None => {
                lemma_sweep_self_immunity(w, facing, rest, struck);
            },
        }
    }
}

/// Self-immunity through a whole attack tick: whatever the owner's swing
/// frame and whatever the feed holds, no `Hit` leaving `cont_attack` is
/// addressed to the weapon's own bearer.
pub proof fn lemma_cont_attack_self_immunity(
    w: Weapon,
    frame: i32,
    facing: Vec2,
    overlaps: Seq<Overlap>,
)
    ensures
        forall|k: int|
            0 <= k < w.spec_cont_attack(frame, facing, overlaps).1.len() && w.spec_cont_attack(
                frame,
                facing,
                overlaps,
            ).1[k].msg is Hit ==> w.spec_cont_attack(frame, facing, overlaps).1[k].to != w.player,
{
    lemma_sweep_self_immunity(w, facing, overlaps, Seq::<EntityId>::empty());
}

/// Whether `x` is among the ids collected in `v`.
fn contains_id(v: &Vec<EntityId>, x: EntityId) -> (r: bool)
    ensures
        r == v@.contains(x),
{
    let mut i: usize = 0;
    while i < v.len()
        invariant
            i <= v@.len(),
            forall|j: int| 0 <= j < i ==> v@[j] != x,
        decreases v@.len() - i,
    {
        if v[i] == x {
            proof {
                assert(v@[i as int] == x);
            }
            return true;
        }
        i = i + 1;
    }
    proof {
        assert(!v@.contains(x));
    }
    false
}

} // verus!
