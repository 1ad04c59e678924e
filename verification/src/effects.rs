//! What a handler asks the engine to do: messages to enqueue on the bus and
//! commands to apply to scene nodes.

use vstd::prelude::*;

use crate::geom::Vec2;
use crate::messages::Message;
use crate::EntityId;

verus! {

/// A velocity assignment for a rigid body.  Knockback and dashes are
/// deliberate instantaneous velocity sets, not impulses, so that their
/// distance does not depend on mass or friction tuning.
#[derive(Clone, Copy, PartialEq, Eq, Structural, Debug)]
pub enum VelCmd {
    /// Set the horizontal component to `vx` (millionths of a unit per
    /// second), keeping the vertical one.
    PlaneX { vx: i32 },
    /// Set the vertical component to `vy` (millionths of a unit per second),
    /// keeping the horizontal one.
    PlaneY { vy: i32 },
    /// Set the velocity to `dir` normalized and scaled to `mag` (thousandths
    /// of a unit per second).
    Along { dir: Vec2, mag: u32 },
    /// Stop the body.
    Stop,
}

/// A projectile the engine is asked to spawn, a little in front of the
/// fighter, flying along its facing.
#[derive(Clone, Copy, PartialEq, Eq, Structural, Debug)]
pub struct ProjectileSpawn {
    /// The fighter that fired it, excluded from its hit test.
    pub owner: EntityId,
    /// Flight direction; also the direction of the knockback it deals.
    pub facing: Vec2,
    /// How far in front of the fighter it appears, thousandths of a unit.
    pub offset: u32,
    /// Flight speed along `facing`, thousandths of a unit per second.
    pub speed: u32,
    /// Frames until it is removed.
    pub life: u32,
}

/// One command to the engine about one scene node.
#[derive(Clone, Copy, PartialEq, Eq, Structural, Debug)]
pub enum EngineCmd {
    /// Set the node's linear velocity.
    SetVel(VelCmd),
    /// Show or hide the node.
    SetVis(bool),
    /// Disable the node entirely and hide it (death).
    Disable,
    /// Remove the node from the scene (a spent projectile).
    Despawn,
    /// Turn the node's visual to face along `dir`.
    Face { dir: Vec2 },
    /// Rotate the node by an increment, thousandths of a full turn.
    Rotate { milliturns: i32 },
    /// Set the node's rotation, thousandths of a full turn.  0 points the
    /// weapon forward; -250 is its rest orientation.
    SetRotation { milliturns: i32 },
    /// Make the node's collider a pure sensor (true) or a solid collider
    /// (false, the parrying blade).
    SetSensor(bool),
    /// Translate the node, thousandths of a unit (the riposte lunge).
    Offset { dx: i32, dy: i32 },
    /// Tell the match controller some fighter's health changed, so the HUD
    /// refreshes lazily.
    HealthDirty,
    /// Spawn a projectile.
    Spawn(ProjectileSpawn),
}

/// An engine command together with the node it concerns.
#[derive(Clone, Copy, PartialEq, Eq, Structural, Debug)]
pub struct Directive {
    pub to: EntityId,
    pub cmd: EngineCmd,
}

/// A message together with the entity it is addressed to.
#[derive(Clone, Copy, PartialEq, Eq, Structural, Debug)]
pub struct Envelope {
    pub to: EntityId,
    pub msg: Message,
}

/// Everything one handler call asks of its surroundings: messages to send
/// and engine commands to apply, each in order.
#[derive(Clone, Debug)]
pub struct Effects {
    pub sends: Vec<Envelope>,
    pub cmds: Vec<Directive>,
}

impl Effects {
    pub fn none() -> (r: Effects)
        ensures
            r.sends@ == Seq::<Envelope>::empty(),
            r.cmds@ == Seq::<Directive>::empty(),
    {
        Effects { sends: Vec::new(), cmds: Vec::new() }
    }
}

/// A vector of one element, for handlers with a fixed, short output.
pub fn vec1<T>(t0: T) -> (r: Vec<T>)
    ensures
        r@ == seq![t0],
{
    let mut v: Vec<T> = Vec::new();
    v.push(t0);
    proof {
        assert(v@ =~= seq![t0]);
    }
    v
}

/// A vector of two elements, in order.
pub fn vec2<T>(t0: T, t1: T) -> (r: Vec<T>)
    ensures
        r@ == seq![t0, t1],
{
    let mut v: Vec<T> = Vec::new();
    v.push(t0);
    v.push(t1);
    proof {
        assert(v@ =~= seq![t0, t1]);
    }
    v
}

/// A vector of three elements, in order.
pub fn vec3<T>(t0: T, t1: T, t2: T) -> (r: Vec<T>)
    ensures
        r@ == seq![t0, t1, t2],
{
    let mut v: Vec<T> = Vec::new();
    v.push(t0);
    v.push(t1);
    v.push(t2);
    proof {
        assert(v@ =~= seq![t0, t1, t2]);
    }
    v
}

} // verus!
