//! Post-processing effects.

pub mod config;
pub mod effects;
