//! The data attached to game entities.

pub mod animation;
pub mod bounding_box;
pub mod collision;
pub mod collision_laws;
pub mod motion;

pub use animation::{Animation, AnimationId, AnimationView};
pub use bounding_box::BoundingBox;
pub use collision::{Boundary, CollideeDetails, CollideeDetailsView, CollideeNew, CollideeView, ColliderNew};
pub use motion::{Marine, Motion};
