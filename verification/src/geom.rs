//! Plane vectors in fixed point.

use vstd::prelude::*;

verus! {

/// A direction or offset in the arena plane, both components in thousandths
/// of a world unit.
#[derive(Clone, Copy, PartialEq, Eq, Structural, Debug)]
pub struct Vec2 {
    pub x: i32,
    pub y: i32,
}

impl Vec2 {
    /// Whether this is the zero vector, which has no direction.
    pub open spec fn spec_is_zero(self) -> bool {
        self.x == 0 && self.y == 0
    }

    pub fn new(x: i32, y: i32) -> (r: Vec2)
        ensures
            r == (Vec2 { x, y }),
    {
        Vec2 { x, y }
    }

    pub fn is_zero(&self) -> (r: bool)
        ensures
            r == self.spec_is_zero(),
    {
        self.x == 0 && self.y == 0
    }
}

} // verus!
