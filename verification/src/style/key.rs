//! The fixed property-key enumeration. A key is the index of its property in
//! every per-node style array, so the order is part of the interface.
use vstd::prelude::*;

verus! {

pub const TRANSLATE_X: usize = 0;
pub const TRANSLATE_Y: usize = 1;
pub const TRANSLATE_Z: usize = 2;
pub const ROTATE_X: usize = 3;
pub const ROTATE_Y: usize = 4;
pub const ROTATE_Z: usize = 5;
pub const ROTATE_3D_X: usize = 6;
pub const ROTATE_3D_Y: usize = 7;
pub const ROTATE_3D_Z: usize = 8;
pub const ROTATE_3D_A: usize = 9;
pub const SCALE_X: usize = 10;
pub const SCALE_Y: usize = 11;
pub const SCALE_Z: usize = 12;
pub const SKEW_X: usize = 13;
pub const SKEW_Y: usize = 14;
pub const OPACITY: usize = 15;
pub const TFO_X: usize = 16;
pub const TFO_Y: usize = 17;

/// Number of property keys, and so the length of a node's style arrays.
pub const COUNT: usize = 18;

/// The box dimension that a relative length of a property is measured against.
#[derive(Clone, Copy, Debug, PartialEq, Eq, Structural)]
pub enum Axis {
    /// The property is not a length of the box: its value is taken as it is.
    Unbound,
    /// Measured against the node's offset width.
    Width,
    /// Measured against the node's offset height.
    Height,
}

/// The axis of each key: horizontal and depth offsets go by the width, vertical
/// ones by the height, everything else is no box length.
pub open spec fn spec_axis_of(k: usize) -> Axis {
    if k == TRANSLATE_X || k == TRANSLATE_Z || k == TFO_X {
        Axis::Width
    } else if k == TRANSLATE_Y || k == TFO_Y {
        Axis::Height
    } else {
        Axis::Unbound
    }
}

/// Tells against which box dimension a relative value of property `k` resolves.
pub fn axis_of(k: usize) -> (axis: Axis)
    ensures
        axis == spec_axis_of(k),
{
    if k == TRANSLATE_X || k == TRANSLATE_Z || k == TFO_X {
        Axis::Width
    } else if k == TRANSLATE_Y || k == TFO_Y {
        Axis::Height
    } else {
        Axis::Unbound
    }
}

} // verus!
