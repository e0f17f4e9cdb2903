//! The per-entity decisions taken once per simulation tick.

pub mod animation;
pub mod animation_laws;

pub use animation::{
    AnimationControlSystem, BulletImpactAnimationSystem, ExplosionAnimationSystem,
    MarineAnimationSystem, PincerAnimationSystem,
};
