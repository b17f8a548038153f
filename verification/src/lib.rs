//! Verified gameplay core of a character-based 3D game: semantic input
//! actions with a composable freeze counter, input suppression while frozen,
//! fixed-point 2D input-vector normalization, and the animation state
//! selection that drives clip playback.
//!
//! The host game engine (entity store, device polling, physics stepping,
//! animation playback, rendering) is an external collaborator: it hands these
//! functions plain values each frame and applies the commands they return.
//! Scalar quantities such as speeds and axis values are carried in fixed
//! point, in millionths of a unit.

pub mod actions;
pub mod animation;
pub mod bindings;
pub mod vector;
