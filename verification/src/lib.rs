//! Annotation canvas for screenshots: shapes drawn over a captured bitmap,
//! with bounded undo/redo, a pointer-driven drawing state machine and
//! hit-testing for selection.
//!
//! Coordinates are fixed-point integers, [`geometry::UNIT`] sub-units to one
//! canvas unit, so every geometric rule is stated and proved over integers.

pub mod arith;
pub mod geometry;
pub mod color;
pub mod palette;
pub mod image;
pub mod shapes;
pub mod render;
pub mod state;
pub mod canvas;
pub mod actions;
pub mod laws;
