//! Property keys and unit tags of a node's style arrays.
pub mod key;
pub mod unit;
