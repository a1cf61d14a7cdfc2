//! Scalars as bit patterns, exact fractions, and 4x4 matrices.
pub mod fraction;
pub mod matrix;
pub mod scalar;
