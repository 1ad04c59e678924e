//! The four fighter classes and their tuning table.

use vstd::prelude::*;

verus! {

/// Frames a projectile-firing class must wait between ranged shots.
pub const RCOOL: i32 = 60;

/// Frames a Barbarian must wait between dash charges.
pub const CCOOL: i32 = 300;

/// Frames a dash charge lasts before the fighter is stopped.
pub const CHARLEN: i32 = 8;

/// Frames of hit-stun after taking damage.
pub const HITDUR: i32 = 30;

/// Speed of a fired projectile, in thousandths of a unit per second.
pub const RATKSPD: u32 = 4500;

/// Frames of the Rogue's riposte counter-attack window.
pub const RIPOSTE_WINDOW: i32 = 10;

/// Parry frame at which the blade is put away; the deflection window closes.
pub const PARRY_RESTORE_FRAME: i32 = 16;

/// Parry frame at which the fighter recovers and returns to idle.
pub const PARRY_END_FRAME: i32 = 28;

/// A charging Barbarian dashes at this multiple of its walking speed.
pub const CHARGE_SPEED_MULT: u32 = 6;

/// Respawn countdown a dead fighter is created with (unused: death is final
/// in this scope).
pub const DEAD_TIMER: i32 = 100;

/// The selectable fighter classes.
#[derive(Clone, Copy, PartialEq, Eq, Structural, Debug)]
pub enum Class {
    Barbarian,
    Rogue,
    Wizard,
    Fighter,
}

impl Default for Class {
    fn default() -> (r: Self)
        ensures
            r == Class::Fighter,
    {
        Class::Fighter
    }
}

/// The immutable tuning values of one class.  Never mutated at runtime.
#[derive(Clone, Copy, PartialEq, Eq, Structural, Debug)]
pub struct Profile {
    /// Walking speed, thousandths of a unit per second.
    pub speed: u32,
    /// Melee weapon hitbox half-width, thousandths of a unit.
    pub half_w: u32,
    /// Melee weapon hitbox half-height, thousandths of a unit.
    pub half_h: u32,
    /// Frames of the active melee swing.
    pub interval: i32,
    /// Frames of end-lag after the swing, with no sweep and no hit tests.
    pub lag: i32,
    /// Angular sweep of the swing per frame, thousandths of a full turn.
    pub sweep: u32,
    /// Damage of one melee hit.
    pub damage: u32,
    /// Knockback magnitude of a melee hit, thousandths of a unit per second.
    pub knockback: u32,
    /// Health a fighter of this class starts with.
    pub max_health: u32,
    /// How far in front of the fighter the weapon rests, thousandths of a
    /// unit.
    pub weapon_offset: u32,
}

impl Class {
    /// The tuning table, one row per class.
    pub open spec fn profile_spec(self) -> Profile {
        match self {
            Class::Barbarian => Profile {
                speed: 2500,
                half_w: 200,
                half_h: 350,
                interval: 15,
                lag: 12,
                sweep: 25,
                damage: 4,
                knockback: 3000,
                max_health: 14,
                weapon_offset: 1000,
            },
            Class::Rogue => Profile {
                speed: 5000,
                half_w: 100,
                half_h: 300,
                interval: 15,
                lag: 12,
                sweep: 25,
                damage: 2,
                knockback: 3000,
                max_health: 7,
                weapon_offset: 750,
            },
            Class::Wizard => Profile {
                speed: 2500,
                half_w: 50,
                half_h: 300,
                interval: 15,
                lag: 12,
                sweep: 25,
                damage: 0,
                knockback: 3000,
                max_health: 7,
                weapon_offset: 750,
            },
            Class::Fighter => Profile {
                speed: 4000,
                half_w: 100,
                half_h: 450,
                interval: 15,
                lag: 12,
                sweep: 25,
                damage: 3,
                knockback: 3000,
                max_health: 12,
                weapon_offset: 1000,
            },
        }
    }

    pub fn profile(&self) -> (r: Profile)
        ensures
            r == self.profile_spec(),
    {
        match self {
            Class::Barbarian => Profile {
                speed: 2500,
                half_w: 200,
                half_h: 350,
                interval: 15,
                lag: 12,
                sweep: 25,
                damage: 4,
                knockback: 3000,
                max_health: 14,
                weapon_offset: 1000,
            },
            Class::Rogue => Profile {
                speed: 5000,
                half_w: 100,
                half_h: 300,
                interval: 15,
                lag: 12,
                sweep: 25,
                damage: 2,
                knockback: 3000,
                max_health: 7,
                weapon_offset: 750,
            },
            Class::Wizard => Profile {
                speed: 2500,
                half_w: 50,
                half_h: 300,
                interval: 15,
                lag: 12,
                sweep: 25,
                damage: 0,
                knockback: 3000,
                max_health: 7,
                weapon_offset: 750,
            },
            Class::Fighter => Profile {
                speed: 4000,
                half_w: 100,
                half_h: 450,
                interval: 15,
                lag: 12,
                sweep: 25,
                damage: 3,
                knockback: 3000,
                max_health: 12,
                weapon_offset: 1000,
            },
        }
    }
}

} // verus!
