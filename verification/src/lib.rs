//! A verified core for a Schotter-style generative artwork: a grid of
//! square "stones" whose displacement and rotation grow more chaotic
//! toward the bottom of the grid.
//!
//! All spatial quantities are fixed-point integers (see [`fixed`]), so
//! that every step of the animation is exact and provable.  A thin
//! rendering shell converts them to screen coordinates.

pub mod fixed;
pub mod rng;
pub mod stone;
pub mod settings;
pub mod sample;
pub mod animator;
pub mod laws;
pub mod entropy;
