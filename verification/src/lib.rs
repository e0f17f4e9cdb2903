//! Movement resolution for a 2D side-scrolling action game.
//!
//! The crate decides whether two axis-aligned boxes are in contact, along
//! which axis the contact is resolved, and by how much the moving box has to
//! be pushed back. It also holds the per-entity decisions that drive sprite
//! animations.
//!
//! All coordinates, extents and velocities are whole numbers of the smallest
//! distance the simulation resolves. Overlaps and the corrections against a
//! boundary are exact; the correction of a pair is a quotient, and is
//! rounded towards zero to a whole number of that distance.

pub mod components;
pub mod math;
pub mod systems;
