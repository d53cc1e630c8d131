//! Overlay a logo image onto a base image at a configurable size and corner.
//!
//! The geometric core of the tool is verified: deriving the logo's target
//! pixel dimensions from a size percentage and the base image's geometry,
//! deriving the placement offset from a named corner and a fixed padding,
//! parsing the corner name, validating the percentage, and building the
//! default output file name. Image decoding, resampling, compositing and
//! encoding are delegated to an external image library behind trusted
//! wrappers.

pub mod compose;
pub mod config;
pub mod corner;
pub mod dimensions;
pub mod geometry;
pub mod naming;
