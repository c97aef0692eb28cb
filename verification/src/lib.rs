//! Core of an interactive globe viewer: procedural mesh generation for the
//! globe surface, graticule and coastline overlay, a per-view camera model
//! with two drag-rotation modes and wheel zoom, and the double-buffered
//! render-target lifecycle that backs each view panel.
//!
//! All geometry and camera state is kept in exact fixed-point integers:
//! angles in microradians, longitudes/latitudes in microdegrees, zoom and
//! normalized panel coordinates in thousandths. The GPU, windowing and file
//! I/O live outside this crate and consume the plain values produced here.

pub mod arith;
pub mod clipboard_support;
pub mod data;
pub mod draw_buffer;
pub mod mesh;
pub mod rotation;
pub mod views;
