//! Integer arithmetic that reports failure instead of wrapping.

pub mod common;
pub mod curve;
