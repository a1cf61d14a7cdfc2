//! Refresh levels: one bit per kind of change that a consumer may have to
//! reconsider. A node's level is the union of the bits raised since it was last
//! consumed.
use vstd::prelude::*;
use crate::style::key;

verus! {

pub const NONE: usize = 0;
pub const CACHE: usize = 1;
pub const TRANSLATE_X: usize = 2;
pub const TRANSLATE_Y: usize = 4;
pub const TRANSLATE_Z: usize = 8;
pub const TRANSLATE: usize = 14;
pub const ROTATE_Z: usize = 16;
pub const SCALE_X: usize = 32;
pub const SCALE_Y: usize = 64;
pub const SCALE_Z: usize = 128;
pub const SCALE: usize = 224;
pub const TRANSFORM: usize = 256;
pub const TRANSFORM_ALL: usize = 510;
pub const OPACITY: usize = 512;
pub const FILTER: usize = 1024;
pub const MIX_BLEND_MODE: usize = 2048;
pub const PERSPECTIVE: usize = 4096;
pub const MASK: usize = 8192;
pub const REPAINT: usize = 16384;
pub const REFLOW: usize = 32768;
pub const REBUILD: usize = 65536;

/// The bit that a change of property `k` raises. Translations, the rotation
/// about z and the scales have a bit each; the other rotations, the skews and
/// the transform origin raise the generic transform bit; opacity has its own.
/// The axis and angle of the free rotation, and unknown keys, raise nothing.
pub open spec fn spec_level_of_key(k: usize) -> usize {
    if k == key::TRANSLATE_X {
        TRANSLATE_X
    } else if k == key::TRANSLATE_Y {
        TRANSLATE_Y
    } else if k == key::TRANSLATE_Z {
        TRANSLATE_Z
    } else if k == key::ROTATE_Z {
        ROTATE_Z
    } else if k == key::SCALE_X {
        SCALE_X
    } else if k == key::SCALE_Y {
        SCALE_Y
    } else if k == key::SCALE_Z {
        SCALE_Z
    } else if k == key::OPACITY {
        OPACITY
    } else if k == key::ROTATE_X || k == key::ROTATE_Y || k == key::SKEW_X || k == key::SKEW_Y
        || k == key::TFO_X || k == key::TFO_Y {
        TRANSFORM
    } else {
        NONE
    }
}

/// Maps a property key to the refresh bit that a change of it raises.
pub fn level_of_key(k: usize) -> (lv: usize)
    ensures
        lv == spec_level_of_key(k),
{
    if k == key::TRANSLATE_X {
        TRANSLATE_X
    } else if k == key::TRANSLATE_Y {
        TRANSLATE_Y
    } else if k == key::TRANSLATE_Z {
        TRANSLATE_Z
    } else if k == key::ROTATE_X {
        TRANSFORM
    } else if k == key::ROTATE_Y {
        TRANSFORM
    } else if k == key::ROTATE_Z {
        ROTATE_Z
    } else if k == key::SCALE_X {
        SCALE_X
    } else if k == key::SCALE_Y {
        SCALE_Y
    } else if k == key::SCALE_Z {
        SCALE_Z
    } else if k == key::SKEW_X {
        TRANSFORM
    } else if k == key::SKEW_Y {
        TRANSFORM
    } else if k == key::OPACITY {
        OPACITY
    } else if k == key::TFO_X {
        TRANSFORM
    } else if k == key::TFO_Y {
        TRANSFORM
    } else {
        NONE
    }
}

/// Whether level `rl` holds any of the bits of `mask`.
pub open spec fn spec_has(rl: usize, mask: usize) -> bool {
    rl & mask != 0
}

/// Tests a level for any of the bits of `mask`.
pub fn has(rl: usize, mask: usize) -> (b: bool)
    ensures
        b == spec_has(rl, mask),
{
    rl & mask != 0
}

} // verus!
