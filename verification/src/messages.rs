//! Messages the entities exchange over the actor bus, and the input events
//! the match controller routes to a fighter.

use vstd::prelude::*;

use crate::geom::Vec2;
use crate::EntityId;

verus! {

/// Gamepad stick axes the combat logic reacts to.
#[derive(Clone, Copy, PartialEq, Eq, Structural, Debug)]
pub enum Axis {
    /// Left stick, horizontal: movement.
    LeftStickX,
    /// Left stick, vertical: movement.
    LeftStickY,
    /// Right stick, horizontal: aim.
    RightStickX,
    /// Right stick, vertical: aim.
    RightStickY,
    /// Any other axis; ignored.
    Other,
}

/// Gamepad buttons the combat logic reacts to.
#[derive(Clone, Copy, PartialEq, Eq, Structural, Debug)]
pub enum Button {
    /// Melee attack.
    RightTrigger,
    /// Ranged attack or class special.
    LeftTrigger,
    /// Parry.
    RightThumb,
    /// Any other button; ignored.
    Other,
}

/// One input-device event.  An axis value is in thousandths of a full
/// deflection, so always within -1000 ..= 1000.
#[derive(Clone, Copy, PartialEq, Eq, Structural, Debug)]
pub enum InputEvent {
    AxisChanged(Axis, i32),
    ButtonPressed(Button),
    /// Any other device event; ignored.
    Other,
}

/// A knockback, handed around as the attacker's facing direction together
/// with the magnitude it is to be scaled to (thousandths of a unit per
/// second).  The engine normalizes `dir` and scales it when it applies the
/// velocity.
#[derive(Clone, Copy, PartialEq, Eq, Structural, Debug)]
pub struct Knockback {
    pub dir: Vec2,
    pub mag: u32,
}

/// A message addressed to one entity, delivered exactly once.  Per sender and
/// receiver the bus keeps send order; across senders it promises none.
#[derive(Clone, Copy, PartialEq, Eq, Structural, Debug)]
pub enum Message {
    /// A raw input event, routed from the owning gamepad to the fighter.
    Controller { event: InputEvent },
    /// Delivered to a fighter whose hitbox was struck.  `body` is the rigid
    /// body the blow landed on — the fighter's own body, or its raised blade
    /// while parrying, which is what a deflection is recognized by.  `sender`
    /// is the striking entity, and the address a `Parried` answer goes to.
    Hit { damage: u32, knockback: Knockback, body: EntityId, sender: EntityId },
    /// Sent back to an attacker whose blow a parry deflected.
    Parried {},
    /// Fighter to weapon: begin the active swing, or put the weapon away.
    Attack { start: bool },
    /// Adjust the receiving fighter's banked charge count.
    Charges { delta: i32 },
}

} // verus!
