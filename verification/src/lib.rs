//! Core logic of an interactive cube viewer.
//!
//! The crate verifies the two algorithmic pieces of the viewer: the camera
//! motion model (orbit / pan / zoom state, exponential smoothing toward a
//! target, reset to the home view) and the procedural cube geometry
//! (vertex positions and per-face colors with outward triangle winding),
//! together with the input-mapping decisions that drive the camera.
//!
//! All camera scalars are kept in a fixed-point scale of micro-units
//! (see [`fixed::UNIT`]); the rendering host converts them to floating
//! point only at its own boundary, and computes there the few quantities
//! that need transcendental functions (the smoothing interpolant from the
//! frame interval, and the rotated camera basis vectors).

pub mod camera;
pub mod fixed;
pub mod geometry;
pub mod input;
