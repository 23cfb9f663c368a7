//! Capture: buffer geometry and the per-cycle read path.
pub mod cycle;
pub mod geometry;
pub mod read;
