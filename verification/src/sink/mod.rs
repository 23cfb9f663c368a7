//! Playback: buffer geometry and the per-cycle write path.
pub mod cycle;
pub mod geometry;
pub mod write;
