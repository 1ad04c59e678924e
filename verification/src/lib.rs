//! Combat core of a four-player arena brawler.
//!
//! Up to four gamepad-driven fighters, each of one of four classes, trade
//! melee swings, parries, ranged shots and class specials until their health
//! reaches zero.  This crate holds the part of that game that can be stated
//! and proved: the per-class tuning table, the fighter combat state machine,
//! the weapon sweep and hit resolution, the projectile lifetime, and the
//! messages the entities exchange.  The surrounding engine — scene graph,
//! physics broad-phase, rendering, gamepad polling — is a collaborator: each
//! tick it hands every entity the overlaps of its hitbox and delivers the
//! messages the entities addressed to one another, and it carries out the
//! engine commands the handlers return.
//!
//! All spatial quantities are fixed-point integers:
//! - lengths, positions, speeds and stick deflections are in thousandths of a
//!   world unit (a full stick deflection is 1000);
//! - the per-axis velocity commands, being a deflection times a speed, are in
//!   millionths of a unit per second;
//! - rotations are in thousandths of a full turn.
//!
//! Frame counters, cooldowns and durations are whole simulation ticks.

pub mod class;
pub mod collision;
pub mod create;
pub mod effects;
pub mod geom;
pub mod messages;
pub mod player;
pub mod projectile;
pub mod weapon;

use vstd::prelude::*;

verus! {

/// Handle of a scene entity (a rigid body, a collider, a script node).  The
/// engine owns the mapping from these ids to its own nodes; the combat logic
/// only stores and compares them.
pub type EntityId = u64;

} // verus!
