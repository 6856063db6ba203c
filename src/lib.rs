//! A snowfall simulation for a tiling compositor: snowflakes fall over the
//! desktop, settle on top of windows or on the floor of the screen, melt,
//! and come back as fresh flakes.
//!
//! All lengths inside the simulation are whole milli-pixels, times are whole
//! microseconds and opacities are per-mille, so that every step of the model
//! is exact integer arithmetic.

pub mod config;
pub mod flake;
pub mod geometry;
pub mod random;
pub mod snow;
pub mod step;
