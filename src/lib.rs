//! Collision geometry and movement decisions for a tile-based world.
//!
//! - `hull`: the triangular faces of an eight-vertex convex hull, with
//!   repeated points merged, and the prisms that tiles collide as.
//! - `movement`: what the per-tick kinematic solver does with each contact,
//!   which step-up probe it takes, and how its grounded state moves on.
//! - `tile`: tile kinds, their edges, sprites and collision shapes.
//! - `coords`: integer tile positions, their order and screen placement.

pub mod coords;
pub mod hull;
pub mod movement;
pub mod tile;
