//! Per-frame logic of a top-down character controller: keyboard intent to
//! velocity and facing, position integration, and directional sprite
//! animation over a four-by-four texture atlas.
//!
//! Everything is stated on integers: speeds in world units per second,
//! positions in nano-units, and elapsed time in nanoseconds, so that
//! integration is exact and frame-rate independent.
pub mod movement;
pub mod animation;
