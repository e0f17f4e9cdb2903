//! What the animation decisions read of a moving entity.

use vstd::prelude::*;
use crate::math::Vector2;

verus! {

/// The velocity an entity moves with during the current tick.
#[derive(Clone, Copy, Debug, PartialEq, Eq, Structural)]
pub struct Motion {
    pub velocity: Vector2,
}

impl Motion {
    /// A motion at rest.
    pub fn new() -> (m: Self)
        ensures
            m.velocity.x == 0,
            m.velocity.y == 0,
    {
        Motion { velocity: Vector2::zero() }
    }
}

/// The player's character.
#[derive(Clone, Copy, Debug, PartialEq, Eq, Structural)]
pub struct Marine {
    /// Set when the marine fired during the current tick.
    pub has_shot: bool,
}

impl Marine {
    /// A marine that has not fired.
    pub fn new() -> (m: Self)
        ensures
            !m.has_shot,
    {
        Marine { has_shot: false }
    }
}

} // verus!
