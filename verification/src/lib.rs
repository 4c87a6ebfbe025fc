//! Generic numeric and 2D geometry primitives.
//!
//! The `scalar` module defines a capability hierarchy over primitive numeric
//! types (comparison, clamping, interpolation, curve sampling, integer
//! logarithms); the `vector` and `rect` modules build a 2D vector and an
//! axis-aligned rectangle on top of it.

pub mod scalar;
pub mod vector;
pub mod rect;
