//! The deciding core of a retained-mode animation and transform engine.
//!
//! Per frame the crate decides where every keyframe timeline stands (its
//! iteration, direction, keyframe and exact progress), which property updates
//! are pending, which dirty bits a node raises, how its local matrix has to be
//! brought up to date, and with which ancestor every node of the flattened
//! tree composes.
//!
//! It decides and does not compute. Time is counted in integer ticks and
//! progress kept as an exact fraction. Scalars travel through the crate as
//! binary64 bit patterns, of which it asks only what the bits alone answer:
//! whether one is zero, is one, or is less than another. Evaluating a curve,
//! interpolating a value and multiplying two matrices is left to the caller,
//! who is told in each case what to evaluate, interpolate or multiply.
use vstd::prelude::*;

pub mod animation;
pub mod math;
pub mod node;
pub mod refresh;
pub mod style;

verus! {

/// Number of clock ticks in one second: time is counted in microseconds.
pub const TICKS_PER_SECOND: u64 = 1_000_000;

} // verus!
