//! Which sprite animation an entity shows.

use vstd::prelude::*;

verus! {

/// The sprite animations of the game.
#[derive(Clone, Copy, Debug, PartialEq, Eq, Hash, Structural)]
pub enum AnimationId {
    BulletImpact,
    Die,
    Explode,
    Idle,
    Jump,
    Move,
    Shoot,
    Walk,
}

/// The animation state of one entity.
#[derive(Clone, Debug, PartialEq, Eq)]
pub struct Animation {
    /// The animation that is playing, or is to be played next.
    pub current: AnimationId,
    /// Every animation the entity can play.
    pub types: Vec<AnimationId>,
    /// Set while the animations of the entity still have to be set up.
    pub show: bool,
}

/// The mathematical content of an [`Animation`].
pub struct AnimationView {
    pub current: AnimationId,
    pub types: Seq<AnimationId>,
    pub show: bool,
}

impl View for Animation {
    type V = AnimationView;

    open spec fn view(&self) -> AnimationView {
        AnimationView { current: self.current, types: self.types@, show: self.show }
    }
}

impl Animation {
    /// The state of an entity that starts out with `current` and whose
    /// animations have not been set up yet.
    pub fn new(current: AnimationId, types: Vec<AnimationId>) -> (made: Self)
        ensures
            made@ == (AnimationView { current, types: types@, show: true }),
    {
        Self { current, types, show: true }
    }
}

} // verus!
