//! A 2D point-light ray-casting engine.
//!
//! A point light casts rays through a scene of opaque line-segment walls.
//! Marching outward from the light in fixed steps, each ray carries a color
//! that is attenuated (per-channel subtraction, clamped to the 8-bit range)
//! every time the probe point falls within a wall's occlusion threshold,
//! until the probe leaves the canvas bounds.
//!
//! Coordinate convention: every coordinate the library sees — wall endpoints,
//! the light position, the canvas bounds and the per-step advance vector —
//! is in pixel space, held in fixed-point units of 1/[`geometry::SCALE`] of a
//! pixel (an `i64`). Callers that keep scene data in other spaces (normalized
//! light positions, floating-point endpoints) convert once at the boundary.

pub mod color;
pub mod geometry;
pub mod scene;
pub mod trace;
