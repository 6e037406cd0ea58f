//! Where a line through the center of an axis-aligned rectangle meets the
//! rectangle's boundary, computed exactly over integer coordinates.

pub mod intercept;

pub use intercept::{Point, Ratio, Rectangle, Vector};
