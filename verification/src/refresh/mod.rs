//! Dirty-bit bookkeeping.
pub mod level;
