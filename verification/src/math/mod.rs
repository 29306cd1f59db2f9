//! Two-component vector arithmetic.
pub mod laws;
pub mod point2;
pub mod signed;

pub use point2::Point2;
