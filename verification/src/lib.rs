//! Transform-and-draw-call core of a small real-time 3D renderer.
//!
//! The crate turns per-object transform edits and static mesh data into an
//! ordered list of draw commands, and derives a first-person camera
//! orientation from yaw/pitch input. Every scalar that the renderer treats
//! as an IEEE 754 single-precision value is carried here as its raw 32-bit
//! pattern, so that matrix and vector contents are plain data the contracts
//! can speak about exactly; the floating-point arithmetic itself is done by
//! the `glam` crate behind a small set of trusted wrappers.

pub mod camera;
pub mod graphics;
pub mod light;
pub mod math;
pub mod object;
pub mod shapes;
