//! Colour values.

pub mod color;
