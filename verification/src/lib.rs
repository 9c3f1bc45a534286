//! A small geometric-algebra kernel for ray tracing: points and vectors,
//! square matrices of order two to four, tagged affine transformations, and
//! the intersection of a ray with a unit sphere.
//!
//! Every type is generic over its element type. Contracts are stated over the
//! element type's own arithmetic, so they hold for any number type whose
//! operators behave as functions of their operands.
pub mod scalar;
pub mod error;
pub mod spatial;
pub mod descartes;
pub mod algebra;
pub mod matrix;
pub mod transformations;
pub mod raycasting;
pub mod integers;
pub mod exact;
