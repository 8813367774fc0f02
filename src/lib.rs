//! Extraction, batching and nine-slice geometry for textured UI quads.
//!
//! Geometry is kept exact: image and target extents are integer pixel
//! counts, scale factors are positive fractions, and every normalized value
//! handed to the GPU is an unreduced fraction (`Ratio`).
pub mod batch;
pub mod batch_lemmas;
pub mod cache;
pub mod draw;
pub mod extract;
pub mod geometry;
pub mod pipeline;
pub mod queue;
pub mod slices;
