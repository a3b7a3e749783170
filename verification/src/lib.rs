//! Flat, contiguous-memory 2D and 3D array containers.
//!
//! Each container owns one linear buffer and addresses its cells through an
//! affine coordinate-to-offset formula. The index mappers are exposed as free
//! functions, and proved to be exact inverses of one another.

pub mod flat_array_2d;
pub mod flat_array_3d;
