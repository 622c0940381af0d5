//! Simulation core of a two-dimensional asteroid shooter, in fixed-point
//! arithmetic: collision geometry, motion, weapons, combat resolution,
//! asteroid and UFO lifecycles, and level progression.
pub mod asteroid;
pub mod combat;
pub mod fixed;
pub mod geometry;
pub mod level;
pub mod motion;
pub mod progress;
mod random;
pub mod ship;
pub mod ufo;
pub mod weapon;
