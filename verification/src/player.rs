//! The fighter: health, class, facing, and the combat state machine.
//!
//! Every handler is written twice: a `spec` transition function that says
//! exactly which fighter comes out and which messages and engine commands go
//! out, and an executable method proved against it.  The laws at the end of
//! the module — health monotonicity, death finality, attack timing — are
//! proved from the transition functions alone.

use vstd::prelude::*;

use crate::class::{Class, CCOOL, CHARGE_SPEED_MULT, CHARLEN, DEAD_TIMER, HITDUR,
    PARRY_END_FRAME, PARRY_RESTORE_FRAME, RATKSPD, RCOOL, RIPOSTE_WINDOW};
use crate::collision::{spec_other_side, other_side, Overlap};
use crate::effects::{Directive, Effects, EngineCmd, Envelope, ProjectileSpawn, VelCmd};
use crate::effects::{vec1, vec2, vec3};
use crate::geom::Vec2;
use crate::messages::{Axis, Button, InputEvent, Knockback, Message};
use crate::projectile::{PROJ_LIFE, PROJ_OFFSET};
use crate::EntityId;

verus! {

/// The combat state, with the number of frames the fighter is into the
/// action where one is carried.
#[derive(Clone, Copy, PartialEq, Eq, Structural, Debug)]
pub enum PlayerState {
    Idle,
    /// Mid dash (Barbarian special); ends on its own after `CHARLEN` frames.
    Charging,
    /// Terminal in this scope; the payload is a respawn countdown that
    /// nothing consumes yet.
    Dead(i32),
    /// Mid counter-attack window (Rogue special).
    Riposting,
    /// Mid melee swing; the frame runs from 1 to `interval + lag`.
    Attacking(i32),
    /// In hit-stun; the frame runs from 0 to `HITDUR`.
    Hit(i32),
    /// Parrying; the frame runs from 0 to `PARRY_END_FRAME`.
    Parry(i32),
}

/// One fighter.
#[derive(Clone, Copy, PartialEq, Eq, Structural, Debug)]
pub struct Player {
    /// This fighter's own entity handle; the address hits against it carry.
    pub id: EntityId,
    pub class: Class,
    pub state: PlayerState,
    /// The rigid body of the owned weapon, created with the fighter.
    pub weapon: EntityId,
    /// The collider shape under that weapon body.
    pub weapon_collider: EntityId,
    /// Frames since the last cooldown-resetting action.
    pub cooldown: i32,
    /// Aim direction; never the zero vector.
    pub facing: Vec2,
    /// Remaining health; 0 once dead.
    pub health: u32,
    /// Banked melee hits a Fighter can convert into ranged shots.
    pub charges: i32,
    /// Whether the fighter's node is shown (hit-stun blinks it).
    pub vis: bool,
    /// Cleared on death, never set again in this scope.
    pub enabled: bool,
}

/// What one handler step yields: the fighter afterwards, the messages sent,
/// and the engine commands issued, in order.
pub type Step = (Player, Seq<Envelope>, Seq<Directive>);

impl Player {
    /// Everything the transitions preserve: counters in range, a usable
    /// facing, health within the class maximum.
    pub open spec fn wf(self) -> bool {
        let prof = self.class.profile_spec();
        &&& 0 <= self.cooldown
        &&& !self.facing.spec_is_zero()
        &&& self.health <= prof.max_health
        &&& match self.state {
            PlayerState::Attacking(f) => 1 <= f <= prof.interval + prof.lag,
            PlayerState::Hit(f) => 0 <= f <= HITDUR,
            PlayerState::Parry(f) => 0 <= f <= PARRY_END_FRAME,
            _ => true,
        }
    }

    /// A fighter as spawned on class confirmation: idle, full health, facing
    /// straight up.
    pub fn new(id: EntityId, class: Class, weapon: EntityId, weapon_collider: EntityId) -> (r:
        Player)
        ensures
            r == (Player {
                id,
                class,
                state: PlayerState::Idle,
                weapon,
                weapon_collider,
                cooldown: 0,
                facing: Vec2 { x: 0, y: 1000 },
                health: class.profile_spec().max_health,
                charges: 0,
                vis: true,
                enabled: true,
            }),
            r.wf(),
    {
        let health = class.profile().max_health;
        Player {
            id,
            class,
            state: PlayerState::Idle,
            weapon,
            weapon_collider,
            cooldown: 0,
            facing: Vec2 { x: 0, y: 1000 },
            health,
            charges: 0,
            vis: true,
            enabled: true,
        }
    }

    /// An unchanged fighter that sends and commands nothing.
    pub open spec fn spec_skip(self) -> Step {
        (self, Seq::<Envelope>::empty(), Seq::<Directive>::empty())
    }

    // ------------------------------------------------------------------
    // Movement and aim
    // ------------------------------------------------------------------

    /// A stick movement.  Left stick sets the walking velocity, scaled by
    /// class speed and, on the horizontal axis, mirrored.  Right stick turns
    /// the fighter, but a centered stick does not erase the last facing, and
    /// aim is locked mid-swing and mid-parry.  All of it is rejected in
    /// hit-stun and while charging.
    pub open spec fn spec_moveplayer(self, axis: Axis, value: i32) -> Step {
        let speed = self.class.profile_spec().speed;
        match self.state {
            PlayerState::Hit(_) => self.spec_skip(),
            PlayerState::Charging => self.spec_skip(),
            _ => match axis {
                Axis::LeftStickX => (
                    self,
                    Seq::<Envelope>::empty(),
                    seq![
                        Directive {
                            to: self.id,
                            cmd: EngineCmd::SetVel(VelCmd::PlaneX { vx: (0 - value * speed) as i32 }),
                        },
                    ],
                ),
                Axis::LeftStickY => (
                    self,
                    Seq::<Envelope>::empty(),
                    seq![
                        Directive {
                            to: self.id,
                            cmd: EngineCmd::SetVel(VelCmd::PlaneY { vy: (value * speed) as i32 }),
                        },
                    ],
                ),
                Axis::RightStickX => if self.state is Attacking || self.state is Parry {
                    self.spec_skip()
                } else if value != 0 {
                    (
                        Player { facing: Vec2 { x: (0 - value) as i32, y: self.facing.y }, ..self },
                        Seq::<Envelope>::empty(),
                        Seq::<Directive>::empty(),
                    )
                } else {
                    self.spec_skip()
                },
                Axis::RightStickY => if self.state is Attacking || self.state is Parry {
                    self.spec_skip()
                } else if value != 0 {
                    (
                        Player { facing: Vec2 { x: self.facing.x, y: value }, ..self },
                        Seq::<Envelope>::empty(),
                        Seq::<Directive>::empty(),
                    )
                } else {
                    self.spec_skip()
                },
                Axis::Other => self.spec_skip(),
            },
        }
    }

    pub fn moveplayer(&mut self, axis: Axis, value: i32) -> (r: Effects)
        requires
            old(self).wf(),
            -1000 <= value <= 1000,
        ensures
            ({
                let (p, sends, cmds) = old(self).spec_moveplayer(axis, value);
                &&& *final(self) == p
                &&& r.sends@ == sends
                &&& r.cmds@ == cmds
            }),
            final(self).wf(),
    {
        proof {
            assert(self.class.profile_spec().speed <= 5000);
        }
        let speed = self.class.profile().speed as i32;
        proof {
            assert(-5_000_000 <= value * speed <= 5_000_000) by (nonlinear_arith)
                requires
                    -1000 <= value <= 1000,
                    0 <= speed <= 5000,
            ;
        }
        match self.state {
            PlayerState::Hit(_) => Effects::none(),
            PlayerState::Charging => Effects::none(),
            _ => match axis {
                Axis::LeftStickX => Effects {
                    sends: Vec::new(),
                    cmds: vec1(Directive {
                        to: self.id,
                        cmd: EngineCmd::SetVel(VelCmd::PlaneX { vx: 0 - value * speed }),
                    }),
                },
                Axis::LeftStickY => Effects {
                    sends: Vec::new(),
                    cmds: vec1(Directive {
                        to: self.id,
                        cmd: EngineCmd::SetVel(VelCmd::PlaneY { vy: value * speed }),
                    }),
                },
                Axis::RightStickX => {
                    let locked = match self.state {
                        PlayerState::Attacking(_) => true,
                        PlayerState::Parry(_) => true,
                        _ => false,
                    };
                    if !locked && value != 0 {
                        self.facing = Vec2 { x: 0 - value, y: self.facing.y };
                    }
                    Effects::none()
                },
                Axis::RightStickY => {
                    let locked = match self.state {
                        PlayerState::Attacking(_) => true,
                        PlayerState::Parry(_) => true,
                        _ => false,
                    };
                    if !locked && value != 0 {
                        self.facing = Vec2 { x: self.facing.x, y: value };
                    }
                    Effects::none()
                },
                Axis::Other => Effects::none(),
            },
        }
    }

    /// The per-tick command that turns the fighter's visual towards its
    /// facing.
    pub fn update_look(&self) -> (r: Directive)
        ensures
            r == (Directive { to: self.id, cmd: EngineCmd::Face { dir: self.facing } }),
    {
        Directive { to: self.id, cmd: EngineCmd::Face { dir: self.facing } }
    }

    // ------------------------------------------------------------------
    // Melee attack
    // ------------------------------------------------------------------

    /// A melee press starts a swing only from `Idle` or `Charging`; the
    /// weapon is told to begin.
    pub open spec fn spec_start_melee_attack(self) -> Step {
        if self.state is Idle || self.state is Charging {
            (
                Player { state: PlayerState::Attacking(1), ..self },
                seq![Envelope { to: self.weapon, msg: Message::Attack { start: true } }],
                Seq::<Directive>::empty(),
            )
        } else {
            self.spec_skip()
        }
    }

    pub fn start_melee_attack(&mut self) -> (r: Effects)
        requires
            old(self).wf(),
        ensures
            ({
                let (p, sends, cmds) = old(self).spec_start_melee_attack();
                &&& *final(self) == p
                &&& r.sends@ == sends
                &&& r.cmds@ == cmds
            }),
            final(self).wf(),
    {
        let can = match self.state {
            PlayerState::Idle => true,
            PlayerState::Charging => true,
            _ => false,
        };
        if can {
            self.state = PlayerState::Attacking(1);
            Effects {
                sends: vec1(Envelope { to: self.weapon, msg: Message::Attack { start: true } }),
                cmds: Vec::new(),
            }
        } else {
            Effects::none()
        }
    }

    /// The per-tick step of a swing at frame `frame`: the frame advances
    /// through the active interval and the end lag, and when both are over
    /// the fighter returns to idle and the weapon is told to stop.
    pub open spec fn spec_check_attack(self, frame: i32) -> Step {
        let prof = self.class.profile_spec();
        if frame < prof.interval + prof.lag {
            (
                Player { state: PlayerState::Attacking((frame + 1) as i32), ..self },
                Seq::<Envelope>::empty(),
                Seq::<Directive>::empty(),
            )
        } else {
            (
                Player { state: PlayerState::Idle, ..self },
                seq![Envelope { to: self.weapon, msg: Message::Attack { start: false } }],
                Seq::<Directive>::empty(),
            )
        }
    }

    pub fn check_attack(&mut self, frame: i32) -> (r: Effects)
        requires
            old(self).wf(),
            old(self).state == PlayerState::Attacking(frame),
        ensures
            ({
                let (p, sends, cmds) = old(self).spec_check_attack(frame);
                &&& *final(self) == p
                &&& r.sends@ == sends
                &&& r.cmds@ == cmds
            }),
            final(self).wf(),
    {
        let prof = self.class.profile();
        if frame < prof.interval + prof.lag {
            self.state = PlayerState::Attacking(frame + 1);
            Effects::none()
        } else {
            self.state = PlayerState::Idle;
            Effects {
                sends: vec1(Envelope { to: self.weapon, msg: Message::Attack { start: false } }),
                cmds: Vec::new(),
            }
        }
    }

    // ------------------------------------------------------------------
    // Taking damage, dying, hit-stun
    // ------------------------------------------------------------------

    /// Death: terminal in this scope.  The weapon is told to put itself
    /// away and the entity is disabled; nothing revives it.
    pub open spec fn spec_die(self) -> Step {
        (
            Player { state: PlayerState::Dead(DEAD_TIMER), vis: false, enabled: false, ..self },
            seq![Envelope { to: self.weapon, msg: Message::Attack { start: false } }],
            seq![Directive { to: self.id, cmd: EngineCmd::Disable }],
        )
    }

    pub fn die(&mut self) -> (r: Effects)
        ensures
            ({
                let (p, sends, cmds) = old(self).spec_die();
                &&& *final(self) == p
                &&& r.sends@ == sends
                &&& r.cmds@ == cmds
            }),
    {
        self.state = PlayerState::Dead(DEAD_TIMER);
        self.vis = false;
        self.enabled = false;
        Effects {
            sends: vec1(Envelope { to: self.weapon, msg: Message::Attack { start: false } }),
            cmds: vec1(Directive { to: self.id, cmd: EngineCmd::Disable }),
        }
    }

    /// A blow that lands: the HUD is flagged, then either the damage is
    /// lethal — health to 0 and death — or health drops by the damage, the
    /// fighter is stunned, the knockback is applied as an instantaneous
    /// velocity, and any attack in progress is cancelled by putting the
    /// weapon away.
    pub open spec fn spec_apply_damage(self, damage: u32, kb: Knockback) -> Step {
        if self.health <= damage {
            let (p, sends, cmds) = self.spec_die();
            (
                Player { health: 0, ..p },
                sends,
                seq![Directive { to: self.id, cmd: EngineCmd::HealthDirty }] + cmds,
            )
        } else {
            (
                Player { state: PlayerState::Hit(0), health: (self.health - damage) as u32, ..self },
                seq![Envelope { to: self.weapon, msg: Message::Attack { start: false } }],
                seq![
                    Directive { to: self.id, cmd: EngineCmd::HealthDirty },
                    Directive {
                        to: self.id,
                        cmd: EngineCmd::SetVel(VelCmd::Along { dir: kb.dir, mag: kb.mag }),
                    },
                ],
            )
        }
    }

    /// A `Hit` message arrives.  Ignored outright in hit-stun and after
    /// death.  While parrying, a blow that landed on the fighter's own
    /// raised blade is deflected: a `Parried` goes back to the striker, the
    /// parry ends, the blade is put away, and no health is lost; any other
    /// blow falls through to normal damage.
    pub open spec fn spec_takehit(
        self,
        damage: u32,
        kb: Knockback,
        body: EntityId,
        sender: EntityId,
    ) -> Step {
        match self.state {
            PlayerState::Hit(_) => self.spec_skip(),
            PlayerState::Dead(_) => self.spec_skip(),
            PlayerState::Parry(_) => if body == self.weapon {
                (
                    Player { state: PlayerState::Idle, ..self },
                    seq![
                        Envelope { to: sender, msg: Message::Parried {} },
                        Envelope { to: self.weapon, msg: Message::Attack { start: false } },
                    ],
                    Seq::<Directive>::empty(),
                )
            } else {
                self.spec_apply_damage(damage, kb)
            },
            _ => self.spec_apply_damage(damage, kb),
        }
    }

    pub fn takehit(&mut self, damage: u32, knockback: Knockback, body: EntityId, sender: EntityId)
        -> (r: Effects)
        requires
            old(self).wf(),
        ensures
            ({
                let (p, sends, cmds) = old(self).spec_takehit(damage, knockback, body, sender);
                &&& *final(self) == p
                &&& r.sends@ == sends
                &&& r.cmds@ == cmds
            }),
            final(self).wf(),
            // Parry deflection: the striker is answered and no health is lost.
            (old(self).state matches PlayerState::Parry(_)) && body == old(self).weapon ==> {
                &&& final(self).health == old(self).health
                &&& final(self).state is Idle
                &&& r.sends@.len() == 2
                &&& r.sends@[0] == (Envelope { to: sender, msg: Message::Parried {} })
            },
            // A blow that lands outside stun, death and deflection costs
            // exactly the damage, floored at zero; lethal damage kills.
            !(old(self).state is Hit) && !(old(self).state is Dead) && !((
            old(self).state matches PlayerState::Parry(_)) && body == old(self).weapon) ==> {
                &&& final(self).health == if old(self).health <= damage {
                    0u32
                } else {
                    (old(self).health - damage) as u32
                }
                &&& old(self).health <= damage <==> final(self).state is Dead
            },
    {
        match self.state {
            PlayerState::Hit(_) => Effects::none(),
            PlayerState::Dead(_) => Effects::none(),
            PlayerState::Parry(_) if body == self.weapon => {
                self.state = PlayerState::Idle;
                Effects {
                    sends: vec2(
                        Envelope { to: sender, msg: Message::Parried {} },
                        Envelope { to: self.weapon, msg: Message::Attack { start: false } },
                    ),
                    cmds: Vec::new(),
                }
            },
            _ => {
                if self.health <= damage {
                    self.health = 0;
                    self.state = PlayerState::Dead(DEAD_TIMER);
                    self.vis = false;
                    self.enabled = false;
                    Effects {
                        sends: vec1(
                            Envelope { to: self.weapon, msg: Message::Attack { start: false } },
                        ),
                        cmds: vec2(
                            Directive { to: self.id, cmd: EngineCmd::HealthDirty },
                            Directive { to: self.id, cmd: EngineCmd::Disable },
                        ),
                    }
                } else {
                    self.health = self.health - damage;
                    self.state = PlayerState::Hit(0);
                    Effects {
                        sends: vec1(
                            Envelope { to: self.weapon, msg: Message::Attack { start: false } },
                        ),
                        cmds: vec2(
                            Directive { to: self.id, cmd: EngineCmd::HealthDirty },
                            Directive {
                                to: self.id,
                                cmd: EngineCmd::SetVel(
                                    VelCmd::Along { dir: knockback.dir, mag: knockback.mag },
                                ),
                            },
                        ),
                    }
                }
            },
        }
    }

    /// The per-tick step of hit-stun at frame `frame`: the fighter blinks
    /// (visibility toggles each tick) until `HITDUR` is reached, then is
    /// shown for good and returns to idle.
    pub open spec fn spec_cont_hit(self, frame: i32) -> Step {
        if frame < HITDUR {
            (
                Player { state: PlayerState::Hit((frame + 1) as i32), vis: !self.vis, ..self },
                Seq::<Envelope>::empty(),
                seq![Directive { to: self.id, cmd: EngineCmd::SetVis(!self.vis) }],
            )
        } else {
            (
                Player { state: PlayerState::Idle, vis: true, ..self },
                Seq::<Envelope>::empty(),
                seq![Directive { to: self.id, cmd: EngineCmd::SetVis(true) }],
            )
        }
    }

    pub fn cont_hit(&mut self, frame: i32) -> (r: Effects)
        requires
            old(self).wf(),
            old(self).state == PlayerState::Hit(frame),
        ensures
            ({
                let (p, sends, cmds) = old(self).spec_cont_hit(frame);
                &&& *final(self) == p
                &&& r.sends@ == sends
                &&& r.cmds@ == cmds
            }),
            final(self).wf(),
    {
        if frame < HITDUR {
            self.vis = !self.vis;
            self.state = PlayerState::Hit(frame + 1);
            let v = self.vis;
            Effects {
                sends: Vec::new(),
                cmds: vec1(Directive { to: self.id, cmd: EngineCmd::SetVis(v) }),
            }
        } else {
            self.vis = true;
            self.state = PlayerState::Idle;
            Effects {
                sends: Vec::new(),
                cmds: vec1(Directive { to: self.id, cmd: EngineCmd::SetVis(true) }),
            }
        }
    }

    // ------------------------------------------------------------------
    // Parry
    // ------------------------------------------------------------------

    /// A parry press, allowed only from idle: the blade comes out in front,
    /// solid rather than a sensor, ready to deflect.
    pub open spec fn spec_parry(self) -> Step {
        if self.state is Idle {
            (
                Player { state: PlayerState::Parry(0), ..self },
                Seq::<Envelope>::empty(),
                seq![
                    Directive { to: self.weapon, cmd: EngineCmd::SetSensor(false) },
                    Directive { to: self.weapon, cmd: EngineCmd::SetVis(true) },
                    Directive { to: self.weapon, cmd: EngineCmd::SetRotation { milliturns: 0 } },
                ],
            )
        } else {
            self.spec_skip()
        }
    }

    pub fn parry(&mut self) -> (r: Effects)
        requires
            old(self).wf(),
        ensures
            ({
                let (p, sends, cmds) = old(self).spec_parry();
                &&& *final(self) == p
                &&& r.sends@ == sends
                &&& r.cmds@ == cmds
            }),
            final(self).wf(),
    {
        match self.state {
            PlayerState::Idle => {
                self.state = PlayerState::Parry(0);
                Effects {
                    sends: Vec::new(),
                    cmds: vec3(
                        Directive { to: self.weapon, cmd: EngineCmd::SetSensor(false) },
                        Directive { to: self.weapon, cmd: EngineCmd::SetVis(true) },
                        Directive { to: self.weapon, cmd: EngineCmd::SetRotation { milliturns: 0 } },
                    ),
                }
            },
            _ => Effects::none(),
        }
    }

    /// The per-tick step of a parry at frame `frame`.  At
    /// `PARRY_RESTORE_FRAME` the blade is put away — the deflection window
    /// closes, recovery begins; at `PARRY_END_FRAME` the fighter is idle
    /// again; otherwise the frame advances.
    pub open spec fn spec_cont_parry(self, frame: i32) -> Step {
        if frame == PARRY_RESTORE_FRAME {
            (
                Player { state: PlayerState::Parry((frame + 1) as i32), ..self },
                seq![Envelope { to: self.weapon, msg: Message::Attack { start: false } }],
                Seq::<Directive>::empty(),
            )
        } else if frame == PARRY_END_FRAME {
            (
                Player { state: PlayerState::Idle, ..self },
                Seq::<Envelope>::empty(),
                Seq::<Directive>::empty(),
            )
        } else {
            (
                Player { state: PlayerState::Parry((frame + 1) as i32), ..self },
                Seq::<Envelope>::empty(),
                Seq::<Directive>::empty(),
            )
        }
    }

    pub fn cont_parry(&mut self, frame: i32) -> (r: Effects)
        requires
            old(self).wf(),
            old(self).state == PlayerState::Parry(frame),
        ensures
            ({
                let (p, sends, cmds) = old(self).spec_cont_parry(frame);
                &&& *final(self) == p
                &&& r.sends@ == sends
                &&& r.cmds@ == cmds
            }),
            final(self).wf(),
    {
        if frame == PARRY_RESTORE_FRAME {
            self.state = PlayerState::Parry(frame + 1);
            Effects {
                sends: vec1(Envelope { to: self.weapon, msg: Message::Attack { start: false } }),
                cmds: Vec::new(),
            }
        } else if frame == PARRY_END_FRAME {
            self.state = PlayerState::Idle;
            Effects::none()
        } else {
            self.state = PlayerState::Parry(frame + 1);
            Effects::none()
        }
    }

    /// Word that this fighter's own strike was deflected.  If it is still
    /// mid-swing or mid-riposte, its weapon is put away — the rest of the
    /// swing hits nothing — while the state keeps ticking through its
    /// frames unchanged: the deliberate resolution of the known asymmetry
    /// between the weapon's and the attacker's state.
    pub open spec fn spec_parried(self) -> Step {
        if self.state is Attacking || self.state is Riposting {
            (
                self,
                seq![Envelope { to: self.weapon, msg: Message::Attack { start: false } }],
                Seq::<Directive>::empty(),
            )
        } else {
            self.spec_skip()
        }
    }

    pub fn parried(&mut self) -> (r: Effects)
        requires
            old(self).wf(),
        ensures
            ({
                let (p, sends, cmds) = old(self).spec_parried();
                &&& *final(self) == p
                &&& r.sends@ == sends
                &&& r.cmds@ == cmds
            }),
            final(self).wf(),
    {
        let struck_back = match self.state {
            PlayerState::Attacking(_) => true,
            PlayerState::Riposting => true,
            _ => false,
        };
        if struck_back {
            Effects {
                sends: vec1(Envelope { to: self.weapon, msg: Message::Attack { start: false } }),
                cmds: Vec::new(),
            }
        } else {
            Effects::none()
        }
    }

    // ------------------------------------------------------------------
    // Ranged attack and class specials
    // ------------------------------------------------------------------

    /// Firing a projectile, gated for every firing class alike: only from
    /// idle, only once the cooldown has run past `RCOOL`.  On success a
    /// projectile spawns along the current facing and the cooldown resets.
    pub open spec fn spec_fire(self) -> Step {
        if self.cooldown > RCOOL && self.state is Idle {
            (
                Player { cooldown: 0, ..self },
                Seq::<Envelope>::empty(),
                seq![
                    Directive {
                        to: self.id,
                        cmd: EngineCmd::Spawn(
                            ProjectileSpawn {
                                owner: self.id,
                                facing: self.facing,
                                offset: PROJ_OFFSET,
                                speed: RATKSPD,
                                life: PROJ_LIFE,
                            },
                        ),
                    },
                ],
            )
        } else {
            self.spec_skip()
        }
    }

    /// The Barbarian's dash: from idle, once the long `CCOOL` cooldown has
    /// run, the fighter charges along its normalized facing at six times
    /// its walking speed, and the cooldown resets — its own count doubles
    /// as the dash clock.  The idle gate is deliberate: the state machine
    /// admits the dash by the single edge `Idle` → `Charging`, so a press
    /// mid-swing, mid-parry or mid-riposte is rejected like any other
    /// invalid transition request.
    pub open spec fn spec_start_charge(self) -> Step {
        if self.cooldown > CCOOL && self.state is Idle {
            (
                Player { state: PlayerState::Charging, cooldown: 0, ..self },
                Seq::<Envelope>::empty(),
                seq![
                    Directive {
                        to: self.id,
                        cmd: EngineCmd::SetVel(
                            VelCmd::Along {
                                dir: self.facing,
                                mag: (CHARGE_SPEED_MULT * self.class.profile_spec().speed) as u32,
                            },
                        ),
                    },
                ],
            )
        } else {
            self.spec_skip()
        }
    }

    pub fn start_charge(&mut self) -> (r: Effects)
        requires
            old(self).wf(),
        ensures
            ({
                let (p, sends, cmds) = old(self).spec_start_charge();
                &&& *final(self) == p
                &&& r.sends@ == sends
                &&& r.cmds@ == cmds
            }),
            final(self).wf(),
    {
        proof {
            assert(self.class.profile_spec().speed <= 5000);
        }
        let idle = match self.state {
            PlayerState::Idle => true,
            _ => false,
        };
        if self.cooldown > CCOOL && idle {
            let mag = CHARGE_SPEED_MULT * self.class.profile().speed;
            self.state = PlayerState::Charging;
            self.cooldown = 0;
            Effects {
                sends: Vec::new(),
                cmds: vec1(
                    Directive {
                        to: self.id,
                        cmd: EngineCmd::SetVel(VelCmd::Along { dir: self.facing, mag }),
                    },
                ),
            }
        } else {
            Effects::none()
        }
    }

    /// The per-tick step of the dash: once the cooldown — reset when the
    /// dash began — reaches `CHARLEN`, the fighter stops dead and is idle
    /// again.  A fixed-duration forced dash, not cancelable.
    pub open spec fn spec_charging(self) -> Step {
        if self.cooldown >= CHARLEN {
            (
                Player { state: PlayerState::Idle, ..self },
                Seq::<Envelope>::empty(),
                seq![Directive { to: self.id, cmd: EngineCmd::SetVel(VelCmd::Stop) }],
            )
        } else {
            self.spec_skip()
        }
    }

    pub fn charging(&mut self) -> (r: Effects)
        requires
            old(self).wf(),
        ensures
            ({
                let (p, sends, cmds) = old(self).spec_charging();
                &&& *final(self) == p
                &&& r.sends@ == sends
                &&& r.cmds@ == cmds
            }),
            final(self).wf(),
    {
        if self.cooldown >= CHARLEN {
            self.state = PlayerState::Idle;
            Effects {
                sends: Vec::new(),
                cmds: vec1(Directive { to: self.id, cmd: EngineCmd::SetVel(VelCmd::Stop) }),
            }
        } else {
            Effects::none()
        }
    }

    /// The Rogue's riposte, allowed only from idle: the blade comes out
    /// pointing forward, the cooldown resets — its count clocks the
    /// counter-attack window — and the fighter is riposting.
    pub open spec fn spec_riposte(self) -> Step {
        if self.state is Idle {
            (
                Player { state: PlayerState::Riposting, cooldown: 0, ..self },
                Seq::<Envelope>::empty(),
                seq![
                    Directive { to: self.weapon, cmd: EngineCmd::SetRotation { milliturns: 0 } },
                    Directive { to: self.weapon, cmd: EngineCmd::SetVis(true) },
                ],
            )
        } else {
            self.spec_skip()
        }
    }

    pub fn riposte(&mut self) -> (r: Effects)
        requires
            old(self).wf(),
        ensures
            ({
                let (p, sends, cmds) = old(self).spec_riposte();
                &&& *final(self) == p
                &&& r.sends@ == sends
                &&& r.cmds@ == cmds
            }),
            final(self).wf(),
    {
        match self.state {
            PlayerState::Idle => {
                self.state = PlayerState::Riposting;
                self.cooldown = 0;
                Effects {
                    sends: Vec::new(),
                    cmds: vec2(
                        Directive { to: self.weapon, cmd: EngineCmd::SetRotation { milliturns: 0 } },
                        Directive { to: self.weapon, cmd: EngineCmd::SetVis(true) },
                    ),
                }
            },
            _ => Effects::none(),
        }
    }

    /// The hits of one riposte tick: every pair with an active contact
    /// whose other side belongs to another fighter is struck for three
    /// times the Rogue's melee damage, knocked along the facing.
    pub open spec fn spec_riposte_hits(self, overlaps: Seq<Overlap>) -> Seq<Envelope>
        decreases overlaps.len(),
    {
        if overlaps.len() == 0 {
            Seq::<Envelope>::empty()
        } else {
            let other = spec_other_side(overlaps[0], self.weapon_collider);
            let rest = self.spec_riposte_hits(overlaps.skip(1));
            if overlaps[0].active {
                match other.fighter {
                    Some(f) => if f.id != self.id {
                        seq![
                            Envelope {
                                to: f.id,
                                msg: Message::Hit {
                                    damage: (3 * Class::Rogue.profile_spec().damage) as u32,
                                    knockback: Knockback {
                                        dir: self.facing,
                                        mag: Class::Rogue.profile_spec().knockback,
                                    },
                                    body: other.body,
                                    sender: self.id,
                                },
                            },
                        ] + rest
                    } else {
                        rest
                    },
                    None => rest,
                }
            } else {
                rest
            }
        }
    }

    /// The per-tick step of the riposte.  While the cooldown is short of
    /// `RIPOSTE_WINDOW` the blade is active: this tick's contacts are
    /// struck and the blade lunges a little further forward.  Then the
    /// window closes: the blade is put away, pulled back, and the fighter
    /// is idle — whether or not anything was hit.
    pub open spec fn spec_riposting(self, overlaps: Seq<Overlap>) -> Step {
        if self.cooldown < RIPOSTE_WINDOW {
            (
                self,
                self.spec_riposte_hits(overlaps),
                seq![Directive { to: self.weapon, cmd: EngineCmd::Offset { dx: 0, dy: 100 } }],
            )
        } else {
            (
                Player { state: PlayerState::Idle, ..self },
                seq![Envelope { to: self.weapon, msg: Message::Attack { start: false } }],
                seq![Directive { to: self.weapon, cmd: EngineCmd::Offset { dx: 0, dy: -1000i32 } }],
            )
        }
    }

    pub fn riposting(&mut self, overlaps: &Vec<Overlap>) -> (r: Effects)
        requires
            old(self).wf(),
        ensures
            ({
                let (p, sends, cmds) = old(self).spec_riposting(overlaps@);
                &&& *final(self) == p
                &&& r.sends@ == sends
                &&& r.cmds@ == cmds
            }),
            final(self).wf(),
            // A riposte never strikes its own fighter.
            forall|k: int|
                0 <= k < r.sends@.len() && r.sends@[k].msg is Hit ==> r.sends@[k].to != old(
                    self,
                ).id,
    {
        proof {
            assert(3 * Class::Rogue.profile_spec().damage <= 6);
        }
        if self.cooldown < RIPOSTE_WINDOW {
            let mut sends: Vec<Envelope> = Vec::new();
            let mut i: usize = 0;
            proof {
                assert(overlaps@.skip(0int) =~= overlaps@);
            }
            while i < overlaps.len()
                invariant
                    i <= overlaps@.len(),
                    self == old(self),
                    self.spec_riposte_hits(overlaps@) == sends@ + self.spec_riposte_hits(
                        overlaps@.skip(i as int),
                    ),
                    forall|k: int|
                        0 <= k < sends@.len() && sends@[k].msg is Hit ==> sends@[k].to != self.id,
                decreases overlaps@.len() - i,
            {
                let o = overlaps[i];
                proof {
                    assert(overlaps@.skip(i as int)[0] == overlaps@[i as int]);
                    assert(overlaps@.skip(i as int).skip(1) =~= overlaps@.skip(i as int + 1));
                }
                let other = other_side(&o, self.weapon_collider);
                if o.active {
                    match other.fighter {
                        Some(f) => {
                            if f.id != self.id {
                                let ghost sends_before = sends@;
                                let rogue = Class::Rogue.profile();
                                sends.push(
                                    Envelope {
                                        to: f.id,
                                        msg: Message::Hit {
                                            damage: 3 * rogue.damage,
                                            knockback: Knockback {
                                                dir: self.facing,
                                                mag: rogue.knockback,
                                            },
                                            body: other.body,
                                            sender: self.id,
                                        },
                                    },
                                );
                                proof {
                                    assert(sends@ =~= sends_before.push(
                                        self.spec_riposte_hits(overlaps@.skip(i as int))[0],
                                    ));
                                    assert(sends@ + self.spec_riposte_hits(
                                        overlaps@.skip(i as int + 1),
                                    ) =~= sends_before + self.spec_riposte_hits(
                                        overlaps@.skip(i as int),
                                    ));
                                }
                            }
                        },
                        None => (),
                    }
                }
                i = i + 1;
            }
            proof {
                assert(overlaps@.skip(overlaps@.len() as int) =~= Seq::<Overlap>::empty());
                assert(sends@ + Seq::<Envelope>::empty() =~= sends@);
            }
            Effects {
                sends,
                cmds: vec1(
                    Directive { to: self.weapon, cmd: EngineCmd::Offset { dx: 0, dy: 100 } },
                ),
            }
        } else {
            self.state = PlayerState::Idle;
            Effects {
                sends: vec1(Envelope { to: self.weapon, msg: Message::Attack { start: false } }),
                cmds: vec1(
                    Directive { to: self.weapon, cmd: EngineCmd::Offset { dx: 0, dy: -1000 } },
                ),
            }
        }
    }

    /// The ranged/special press, dispatched by class: the Barbarian
    /// charges, the Rogue ripostes, the Wizard fires freely, and the
    /// Fighter fires only out of banked charges — each attempt with a
    /// charge in the bank spends exactly one, whether or not the
    /// cooldown gate then lets the shot off; with an empty bank the press
    /// does nothing.
    pub open spec fn spec_projectiles(self) -> Step {
        match self.class {
            Class::Barbarian => self.spec_start_charge(),
            Class::Rogue => self.spec_riposte(),
            Class::Wizard => self.spec_fire(),
            Class::Fighter => if self.charges > 0 {
                (Player { charges: (self.charges - 1) as i32, ..self }).spec_fire()
            } else {
                self.spec_skip()
            },
        }
    }

    pub fn projectiles(&mut self) -> (r: Effects)
        requires
            old(self).wf(),
        ensures
            ({
                let (p, sends, cmds) = old(self).spec_projectiles();
                &&& *final(self) == p
                &&& r.sends@ == sends
                &&& r.cmds@ == cmds
            }),
            final(self).wf(),
            // The charge bank moves by exactly one per Fighter attempt with
            // credit, and not at all without.
            old(self).class is Fighter && old(self).charges > 0 ==> final(self).charges == old(
                self,
            ).charges - 1,
            old(self).class is Fighter && old(self).charges <= 0 ==> *final(self) == *old(self)
                && r.sends@.len() == 0 && r.cmds@.len() == 0,
    {
        match self.class {
            Class::Barbarian => self.start_charge(),
            Class::Rogue => self.riposte(),
            Class::Wizard => self.fire(),
            Class::Fighter => {
                if self.charges > 0 {
                    self.charges = self.charges - 1;
                    self.fire()
                } else {
                    Effects::none()
                }
            },
        }
    }

    fn fire(&mut self) -> (r: Effects)
        requires
            old(self).wf(),
        ensures
            ({
                let (p, sends, cmds) = old(self).spec_fire();
                &&& *final(self) == p
                &&& r.sends@ == sends
                &&& r.cmds@ == cmds
            }),
            final(self).wf(),
    {
        let idle = match self.state {
            PlayerState::Idle => true,
            _ => false,
        };
        if self.cooldown > RCOOL && idle {
            self.cooldown = 0;
            Effects {
                sends: Vec::new(),
                cmds: vec1(
                    Directive {
                        to: self.id,
                        cmd: EngineCmd::Spawn(
                            ProjectileSpawn {
                                owner: self.id,
                                facing: self.facing,
                                offset: PROJ_OFFSET,
                                speed: RATKSPD,
                                life: PROJ_LIFE,
                            },
                        ),
                    },
                ),
            }
        } else {
            Effects::none()
        }
    }

    // ------------------------------------------------------------------
    // Dispatch
    // ------------------------------------------------------------------

    /// One delivered message.  A dead fighter ignores everything.  Input
    /// events route to movement and the three attack buttons; a `Hit` is
    /// taken; a `Parried` disarms this fighter's own strike; a `Charges`
    /// adjustment moves the bank by its delta.  `Attack` messages address
    /// weapons, not fighters, and are ignored here.
    pub open spec fn spec_on_message(self, msg: Message) -> Step {
        if self.state is Dead {
            self.spec_skip()
        } else {
            match msg {
                Message::Controller { event } => match event {
                    InputEvent::AxisChanged(axis, value) => self.spec_moveplayer(axis, value),
                    InputEvent::ButtonPressed(button) => match button {
                        Button::RightTrigger => self.spec_start_melee_attack(),
                        Button::LeftTrigger => self.spec_projectiles(),
                        Button::RightThumb => self.spec_parry(),
                        Button::Other => self.spec_skip(),
                    },
                    InputEvent::Other => self.spec_skip(),
                },
                Message::Hit { damage, knockback, body, sender } => self.spec_takehit(
                    damage,
                    knockback,
                    body,
                    sender,
                ),
                Message::Parried {} => self.spec_parried(),
                Message::Attack { .. } => self.spec_skip(),
                Message::Charges { delta } => (
                    Player { charges: (self.charges + delta) as i32, ..self },
                    Seq::<Envelope>::empty(),
                    Seq::<Directive>::empty(),
                ),
            }
        }
    }

    pub fn on_message(&mut self, msg: &Message) -> (r: Effects)
        requires
            old(self).wf(),
            *msg matches Message::Charges { delta } ==> i32::MIN <= old(self).charges + delta
                <= i32::MAX,
            *msg matches Message::Controller { event } ==> (event matches InputEvent::AxisChanged(
                _,
                value,
            ) ==> -1000 <= value <= 1000),
        ensures
            ({
                let (p, sends, cmds) = old(self).spec_on_message(*msg);
                &&& *final(self) == p
                &&& r.sends@ == sends
                &&& r.cmds@ == cmds
            }),
            final(self).wf(),
            // Death finality: a dead fighter neither changes nor answers.
            old(self).state is Dead ==> *final(self) == *old(self) && r.sends@.len() == 0
                && r.cmds@.len() == 0,
    {
        let dead = match self.state {
            PlayerState::Dead(_) => true,
            _ => false,
        };
        if dead {
            return Effects::none();
        }
        match *msg {
            Message::Controller { event } => match event {
                InputEvent::AxisChanged(axis, value) => self.moveplayer(axis, value),
                InputEvent::ButtonPressed(button) => match button {
                    Button::RightTrigger => self.start_melee_attack(),
                    Button::LeftTrigger => self.projectiles(),
                    Button::RightThumb => self.parry(),
                    Button::Other => Effects::none(),
                },
                InputEvent::Other => Effects::none(),
            },
            Message::Hit { damage, knockback, body, sender } => self.takehit(
                damage,
                knockback,
                body,
                sender,
            ),
            Message::Parried {} => self.parried(),
            Message::Attack { .. } => Effects::none(),
            Message::Charges { delta } => {
                self.charges = self.charges + delta;
                Effects::none()
            },
        }
    }

    /// One fixed tick.  A dead fighter is frozen outright: no handler, no
    /// cooldown, no commands.  Otherwise the current state ticks — the
    /// swing, the stun, the dash, the parry or the riposte window advances
    /// — then a Barbarian whose cooldown sits exactly at the dash length is
    /// braked, the cooldown counts up, and the facing indicator is
    /// re-aimed.  `overlaps` is the collision feed of the weapon hitbox,
    /// read only while riposting.
    pub open spec fn spec_on_update(self, overlaps: Seq<Overlap>) -> Step {
        if self.state is Dead {
            self.spec_skip()
        } else {
            let (p, sends, cmds) = match self.state {
                PlayerState::Attacking(frame) => self.spec_check_attack(frame),
                PlayerState::Hit(frame) => self.spec_cont_hit(frame),
                PlayerState::Charging => self.spec_charging(),
                PlayerState::Parry(frame) => self.spec_cont_parry(frame),
                PlayerState::Riposting => self.spec_riposting(overlaps),
                _ => self.spec_skip(),
            };
            let brake: Seq<Directive> = if self.class is Barbarian && self.cooldown == CHARLEN {
                seq![Directive { to: self.id, cmd: EngineCmd::SetVel(VelCmd::Stop) }]
            } else {
                Seq::<Directive>::empty()
            };
            (
                Player { cooldown: (p.cooldown + 1) as i32, ..p },
                sends,
                cmds + brake + seq![
                    Directive { to: self.id, cmd: EngineCmd::Face { dir: self.facing } },
                ],
            )
        }
    }

    pub fn on_update(&mut self, overlaps: &Vec<Overlap>) -> (r: Effects)
        requires
            old(self).wf(),
            old(self).cooldown < i32::MAX,
        ensures
            ({
                let (p, sends, cmds) = old(self).spec_on_update(overlaps@);
                &&& *final(self) == p
                &&& r.sends@ == sends
                &&& r.cmds@ == cmds
            }),
            final(self).wf(),
            // Death finality holds tick after tick as well.
            old(self).state is Dead ==> *final(self) == *old(self) && r.sends@.len() == 0
                && r.cmds@.len() == 0,
    {
        let dead = match self.state {
            PlayerState::Dead(_) => true,
            _ => false,
        };
        if dead {
            return Effects::none();
        }
        let barb_brake = match self.class {
            Class::Barbarian => self.cooldown == CHARLEN,
            _ => false,
        };
        let look = self.update_look();
        let mut eff = match self.state {
            PlayerState::Attacking(frame) => self.check_attack(frame),
            PlayerState::Hit(frame) => self.cont_hit(frame),
            PlayerState::Charging => self.charging(),
            PlayerState::Parry(frame) => self.cont_parry(frame),
            PlayerState::Riposting => self.riposting(overlaps),
            _ => Effects::none(),
        };
        if barb_brake {
            eff.cmds.push(Directive { to: self.id, cmd: EngineCmd::SetVel(VelCmd::Stop) });
        }
        eff.cmds.push(look);
        self.cooldown = self.cooldown + 1;
        proof {
            let (p, sends, cmds) = old(self).spec_on_update(overlaps@);
            assert(eff.cmds@ =~= cmds);
        }
        eff
    }
}

// ----------------------------------------------------------------------
// Laws of the state machine
// ----------------------------------------------------------------------

/// The fighter left after a whole sequence of messages is delivered, one
/// after the other.
pub open spec fn spec_deliver(p: Player, msgs: Seq<Message>) -> Player
    decreases msgs.len(),
{
    if msgs.len() == 0 {
        p
    } else {
        spec_deliver(p.spec_on_message(msgs[0]).0, msgs.skip(1))
    }
}

/// The fighter left after `n` quiet ticks: fixed updates with no message
/// delivered and nothing overlapping its weapon.
pub open spec fn spec_run_updates(p: Player, n: nat) -> Player
    decreases n,
{
    if n == 0 {
        p
    } else {
        spec_run_updates(p.spec_on_update(Seq::<Overlap>::empty()).0, (n - 1) as nat)
    }
}

/// No single message ever raises a fighter's health: damage only takes,
/// and no heal path exists in this scope.
pub proof fn lemma_message_health(p: Player, msg: Message)
    ensures
        p.spec_on_message(msg).0.health <= p.health,
{
}

/// A hit that is neither shrugged off in stun or death nor deflected by a
/// parry costs exactly its damage, floored at zero: health strictly
/// decreases whenever there is damage to take and health left to lose.
pub proof fn lemma_hit_strictly_decreases(
    p: Player,
    damage: u32,
    kb: Knockback,
    body: EntityId,
    sender: EntityId,
)
    requires
        !(p.state is Hit),
        !(p.state is Dead),
        !(p.state is Parry && body == p.weapon),
    ensures
        p.spec_takehit(damage, kb, body, sender).0.health == if p.health <= damage {
            0u32
        } else {
            (p.health - damage) as u32
        },
        damage > 0 && p.health > 0 ==> p.spec_takehit(damage, kb, body, sender).0.health
            < p.health,
{
}

/// Health monotonicity: over any sequence of delivered messages — hits
/// among them — health never increases.
pub proof fn lemma_health_monotonic(p: Player, msgs: Seq<Message>)
    ensures
        spec_deliver(p, msgs).health <= p.health,
    decreases msgs.len(),
{
    if msgs.len() > 0 {
        lemma_message_health(p, msgs[0]);
        lemma_health_monotonic(p.spec_on_message(msgs[0]).0, msgs.skip(1));
    }
}

/// Death finality, message side: once dead, no sequence of delivered
/// messages changes the fighter at all.
pub proof fn lemma_death_finality_messages(p: Player, msgs: Seq<Message>)
    requires
        p.state is Dead,
    ensures
        spec_deliver(p, msgs) == p,
    decreases msgs.len(),
{
    if msgs.len() > 0 {
        lemma_death_finality_messages(p.spec_on_message(msgs[0]).0, msgs.skip(1));
    }
}

/// Death finality, tick side: once dead, any number of fixed updates
/// leaves the fighter untouched.
pub proof fn lemma_death_finality_ticks(p: Player, n: nat)
    requires
        p.state is Dead,
    ensures
        spec_run_updates(p, n) == p,
    decreases n,
{
    if n > 0 {
        lemma_death_finality_ticks(p.spec_on_update(Seq::<Overlap>::empty()).0, (n - 1) as nat);
    }
}

/// The inductive heart of the attack clock: from swing frame `k`, each
/// quiet tick advances the frame by one until `interval + lag` is passed,
/// and the very next tick lands on idle.
pub proof fn lemma_attack_progress(p: Player, k: i32, n: nat)
    requires
        p.state == PlayerState::Attacking(k),
        1 <= k <= p.class.profile_spec().interval + p.class.profile_spec().lag,
    ensures
        n <= p.class.profile_spec().interval + p.class.profile_spec().lag - k ==> spec_run_updates(
            p,
            n,
        ).state == PlayerState::Attacking((k + n) as i32),
        n == p.class.profile_spec().interval + p.class.profile_spec().lag - k + 1
            ==> spec_run_updates(p, n).state is Idle,
    decreases n,
{
    if n > 0 {
        let p1 = p.spec_on_update(Seq::<Overlap>::empty()).0;
        if k < p.class.profile_spec().interval + p.class.profile_spec().lag {
            assert(p1.state == PlayerState::Attacking((k + 1) as i32));
            lemma_attack_progress(p1, (k + 1) as i32, (n - 1) as nat);
        } else {
            assert(p1.state is Idle);
            if n == 1 {
            } else {
                assert(spec_run_updates(p, n) == spec_run_updates(p1, (n - 1) as nat));
            }
        }
    }
}

/// Attack timing determinism: a fighter that has just entered its swing —
/// frame 1 — and is then left alone stays in `Attacking` for exactly
/// `interval + lag` ticks, its frame counting up by one per tick, and the
/// tick after that finds it idle again.
pub proof fn lemma_attack_timing(p: Player, n: nat)
    requires
        p.state == PlayerState::Attacking(1),
    ensures
        n < p.class.profile_spec().interval + p.class.profile_spec().lag ==> spec_run_updates(
            p,
            n,
        ).state == PlayerState::Attacking((1 + n) as i32),
        n == p.class.profile_spec().interval + p.class.profile_spec().lag ==> spec_run_updates(
            p,
            n,
        ).state is Idle,
{
    lemma_attack_progress(p, 1, n);
}

} // verus!
