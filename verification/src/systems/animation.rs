//! The decisions that drive sprite animations.
//!
//! Each system looks at one entity at a time and answers with what has to
//! be done to the animations that are set up for that entity. Carrying the
//! answer out is left to the caller.

use vstd::prelude::*;
use crate::components::animation::{Animation, AnimationId, AnimationView};
use crate::components::motion::{Marine, Motion};
use crate::math::Vector2;

verus! {

/// What an animation does once it has played through.
#[derive(Clone, Copy, Debug, PartialEq, Eq, Structural)]
pub enum EndControl {
    /// Hold the last frame.
    Stay,
    /// Start over, for ever.
    Loop,
}

/// An animation to set up for an entity.
#[derive(Clone, Copy, Debug, PartialEq, Eq, Structural)]
pub struct Addition {
    pub id: AnimationId,
    pub end: EndControl,
}

/// What the control system asks for on behalf of one entity.
#[derive(Clone, Debug, PartialEq, Eq)]
pub struct ControlPlan {
    /// The animations to set up, in this order.
    pub add: Vec<Addition>,
    /// The animation to start afterwards.
    pub start: AnimationId,
}

/// The mathematical content of a [`ControlPlan`].
pub struct ControlPlanView {
    pub add: Seq<Addition>,
    pub start: AnimationId,
}

impl View for ControlPlan {
    type V = ControlPlanView;

    open spec fn view(&self) -> ControlPlanView {
        ControlPlanView { add: self.add@, start: self.start }
    }
}

/// A change from one animation to another.
#[derive(Clone, Copy, Debug, PartialEq, Eq, Structural)]
pub struct AnimationSwitch {
    /// The animation to abort.
    pub abort: AnimationId,
    /// The animation to start in its place.
    pub start: AnimationId,
}

/// What becomes of a short-lived effect, such as an explosion.
#[derive(Clone, Copy, Debug, PartialEq, Eq, Structural)]
pub enum EffectStep {
    /// Start the given animation.
    Start(AnimationId),
    /// The animation has played through: remove the entity.
    Delete,
    /// The animation is still playing.
    Wait,
}

/// Ends bullet impacts once their animation has played through.
#[derive(Clone, Copy, Debug, PartialEq, Eq, Structural)]
pub struct BulletImpactAnimationSystem;

/// Ends explosions once their animation has played through.
#[derive(Clone, Copy, Debug, PartialEq, Eq, Structural)]
pub struct ExplosionAnimationSystem;

/// Sets up the animations of every animated entity and starts the current one.
#[derive(Clone, Copy, Debug, PartialEq, Eq, Structural)]
pub struct AnimationControlSystem;

/// Picks the animation of the marine from how it moves.
#[derive(Clone, Copy, Debug, PartialEq, Eq, Structural)]
pub struct MarineAnimationSystem;

/// Picks the animation of a pincer from how it moves.
#[derive(Clone, Copy, Debug, PartialEq, Eq, Structural)]
pub struct PincerAnimationSystem;

/// What the animation `id` does once it has played through: one-shot
/// animations hold their last frame, all others start over.
pub open spec fn end_control(id: AnimationId) -> EndControl {
    match id {
        AnimationId::Shoot | AnimationId::Explode | AnimationId::BulletImpact => EndControl::Stay,
        _ => EndControl::Loop,
    }
}

/// The animations among `types` that are not set up yet, given that those
/// in `listed` are: each such animation once, in the order in which
/// `types` first names it.
pub open spec fn missing(types: Seq<AnimationId>, listed: Seq<AnimationId>) -> Seq<AnimationId>
    decreases types.len(),
{
    if types.len() == 0 {
        Seq::empty()
    } else {
        let earlier = missing(types.drop_last(), listed);
        let id = types.last();
        if listed.contains(id) || earlier.contains(id) {
            earlier
        } else {
            earlier.push(id)
        }
    }
}

/// The animations in `ids`, each with what it does at its end.
pub open spec fn additions(ids: Seq<AnimationId>) -> Seq<Addition> {
    ids.map_values(|id: AnimationId| Addition { id, end: end_control(id) })
}

/// What is to be done for an entity with the state `animation` whose
/// animations in `listed` are set up.
pub open spec fn control_plan(animation: AnimationView, listed: Seq<AnimationId>) -> ControlPlanView {
    ControlPlanView {
        add: if animation.show {
            additions(missing(animation.types, listed))
        } else {
            Seq::empty()
        },
        start: animation.current,
    }
}

/// What becomes of an effect whose animation is `own`: it is started while
/// it still has to be shown, and the entity goes once `own` is no longer
/// among the animations in `listed`.
pub open spec fn effect_step(
    animation: AnimationView,
    listed: Seq<AnimationId>,
    own: AnimationId,
) -> EffectStep {
    if animation.show {
        EffectStep::Start(animation.current)
    } else if !listed.contains(own) {
        EffectStep::Delete
    } else {
        EffectStep::Wait
    }
}

/// The animation of a marine that moves at `velocity`: a jump while it
/// moves vertically, else a run while it moves horizontally, else a shot
/// if it fired, else idling.
pub open spec fn marine_animation(velocity: Vector2, has_shot: bool) -> AnimationId {
    if velocity.y != 0 {
        AnimationId::Jump
    } else if velocity.x != 0 {
        AnimationId::Move
    } else if has_shot {
        AnimationId::Shoot
    } else {
        AnimationId::Idle
    }
}

/// The animation of a pincer that moves at `velocity`: a walk while it
/// moves horizontally, else idling.
pub open spec fn pincer_animation(velocity: Vector2) -> AnimationId {
    if velocity.x != 0 {
        AnimationId::Walk
    } else {
        AnimationId::Idle
    }
}

/// The change that takes an entity from `current` to `next`, if the two differ.
pub open spec fn switched(current: AnimationId, next: AnimationId) -> Option<AnimationSwitch> {
    if current != next {
        Some(AnimationSwitch { abort: current, start: next })
    } else {
        None
    }
}

/// Tells whether `id` is among `listed`.
pub fn is_listed(listed: &Vec<AnimationId>, id: AnimationId) -> (found: bool)
    ensures
        found == listed@.contains(id),
{
    let mut i: usize = 0;
    while i < listed.len()
        invariant
            i <= listed.len(),
            forall|j: int| 0 <= j < i ==> listed@[j] != id,
        decreases listed.len() - i,
    {
        if listed[i] == id {
            return true;
        }
        i += 1;
    }
    false
}

/// Tells whether `id` is among the animations that `add` sets up.
fn is_planned(add: &Vec<Addition>, id: AnimationId) -> (found: bool)
    ensures
        found == (exists|j: int| 0 <= j < add@.len() && add@[j].id == id),
{
    let mut i: usize = 0;
    while i < add.len()
        invariant
            i <= add.len(),
            forall|j: int| 0 <= j < i ==> add@[j].id != id,
        decreases add.len() - i,
    {
        if add[i].id == id {
            return true;
        }
        i += 1;
    }
    false
}

/// Shows or ends an effect whose animation is `own`.
fn run_effect(animation: &mut Animation, listed: &Vec<AnimationId>, own: AnimationId) -> (step:
    EffectStep)
    ensures
        step == effect_step(old(animation)@, listed@, own),
        final(animation)@ == (AnimationView { show: false, ..old(animation)@ }),
{
    if animation.show {
        animation.show = false;
        EffectStep::Start(animation.current)
    } else if !is_listed(listed, own) {
        EffectStep::Delete
    } else {
        EffectStep::Wait
    }
}

impl BulletImpactAnimationSystem {
    /// Decides what becomes of one bullet impact. `listed` names the
    /// animations that are set up for it.
    pub fn run(&self, animation: &mut Animation, listed: &Vec<AnimationId>) -> (step: EffectStep)
        ensures
            step == effect_step(old(animation)@, listed@, AnimationId::BulletImpact),
            final(animation)@ == (AnimationView { show: false, ..old(animation)@ }),
    {
        run_effect(animation, listed, AnimationId::BulletImpact)
    }
}

impl ExplosionAnimationSystem {
    /// Decides what becomes of one explosion. `listed` names the
    /// animations that are set up for it.
    pub fn run(&self, animation: &mut Animation, listed: &Vec<AnimationId>) -> (step: EffectStep)
        ensures
            step == effect_step(old(animation)@, listed@, AnimationId::Explode),
            final(animation)@ == (AnimationView { show: false, ..old(animation)@ }),
    {
        run_effect(animation, listed, AnimationId::Explode)
    }
}

impl AnimationControlSystem {
    /// Tells what the animation `id` does once it has played through.
    pub fn end_control_of(id: AnimationId) -> (end: EndControl)
        ensures
            end == end_control(id),
    {
        match id {
            AnimationId::Shoot | AnimationId::Explode | AnimationId::BulletImpact => EndControl::Stay,
            _ => EndControl::Loop,
        }
    }

    /// Decides which animations to set up for one entity, and which one to
    /// start. `listed` names the animations that are set up already.
    pub fn run(&self, animation: &Animation, listed: &Vec<AnimationId>) -> (plan: ControlPlan)
        ensures
            plan@ == control_plan(animation@, listed@),
    {
        let mut add: Vec<Addition> = Vec::new();
        if animation.show {
            let mut i: usize = 0;
            while i < animation.types.len()
                invariant
                    i <= animation.types.len(),
                    add@ == additions(missing(animation.types@.take(i as int), listed@)),
                decreases animation.types.len() - i,
            {
                let id = animation.types[i];
                let ghost earlier = missing(animation.types@.take(i as int), listed@);
                proof {
                    assert(animation.types@.take(i + 1).drop_last() == animation.types@.take(
                        i as int,
                    ));
                    assert(forall|j: int|
                        0 <= j < earlier.len() ==> additions(earlier)[j].id == earlier[j]);
                }
                if !is_listed(listed, id) && !is_planned(&add, id) {
                    add.push(Addition { id, end: Self::end_control_of(id) });
                    assert(add@ == additions(earlier.push(id)));
                }
                i += 1;
            }
            assert(animation.types@.take(i as int) == animation.types@);
        }
        ControlPlan { add, start: animation.current }
    }
}

impl MarineAnimationSystem {
    /// Picks the animation of the marine for this tick and forgets that
    /// it fired. Answers with the change to make, if there is one.
    pub fn run(&self, marine: &mut Marine, motion: &Motion, animation: &mut Animation) -> (switch:
        Option<AnimationSwitch>)
        ensures
            !final(marine).has_shot,
            final(animation)@ == (AnimationView {
                current: marine_animation(motion.velocity, old(marine).has_shot),
                ..old(animation)@
            }),
            switch == switched(
                old(animation).current,
                marine_animation(motion.velocity, old(marine).has_shot),
            ),
    {
        let velocity = motion.velocity;
        let next = if velocity.y != 0 {
            AnimationId::Jump
        } else if velocity.x != 0 {
            AnimationId::Move
        } else if marine.has_shot {
            AnimationId::Shoot
        } else {
            AnimationId::Idle
        };
        marine.has_shot = false;
        change_to(animation, next)
    }
}

impl PincerAnimationSystem {
    /// Picks the animation of a pincer for this tick. Answers with the
    /// change to make, if there is one.
    pub fn run(&self, motion: &Motion, animation: &mut Animation) -> (switch: Option<
        AnimationSwitch,
    >)
        ensures
            final(animation)@ == (AnimationView {
                current: pincer_animation(motion.velocity),
                ..old(animation)@
            }),
            switch == switched(old(animation).current, pincer_animation(motion.velocity)),
    {
        let next = if motion.velocity.x != 0 {
            AnimationId::Walk
        } else {
            AnimationId::Idle
        };
        change_to(animation, next)
    }
}

/// Makes `next` the current animation and answers with the change, if it is one.
fn change_to(animation: &mut Animation, next: AnimationId) -> (switch: Option<AnimationSwitch>)
    ensures
        final(animation)@ == (AnimationView { current: next, ..old(animation)@ }),
        switch == switched(old(animation).current, next),
{
    if animation.current != next {
        let switch = AnimationSwitch { abort: animation.current, start: next };
        animation.current = next;
        Some(switch)
    } else {
        None
    }
}

} // verus!
