//! Styled nodes and the flattened tree that holds them.
pub mod node;
pub mod recompose;
pub mod root;

pub use node::Node;
pub use recompose::{MatrixPlan, Step};
pub use root::Root;
