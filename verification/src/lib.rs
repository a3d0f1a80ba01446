//! The verified core of the HeartOn engine's public layer.
//!
//! Its centre is the culling of axis-aligned boxes against the six planes of
//! a view frustum, four boxes at a time, on the instruction-set path that was
//! detected for the machine (`simd`). Around it stand the voxel worlds and
//! their scene files (`voxel`), the licensing tiers (`tier`), the recording
//! and playback of camera paths (`replay`), the configuration presets
//! (`config`, `postfx`), what is known of the GPU (`capabilities`), and the
//! names of platform and version.
//!
//! Everything here works on integers, so that every result is exact and
//! proved. World coordinates are grid coordinates, and a number that the
//! library keeps without computing with it is held as the 32 bits of its
//! IEEE 754 form.

pub mod capabilities;
pub mod config;
pub mod debug;
pub mod ieee;
pub mod platform;
pub mod postfx;
pub mod replay;
pub mod simd;
pub mod text;
pub mod tier;
pub mod version;
pub mod voxel;
