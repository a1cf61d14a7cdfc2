//! Unit tags, and the reference quantity each of them scales.
use vstd::prelude::*;

verus! {

pub const AUTO: usize = 0;
pub const PX: usize = 1;
pub const PERCENT: usize = 2;
pub const NUMBER: usize = 3;
pub const INHERIT: usize = 4;
pub const DEG: usize = 5;
pub const STRING: usize = 6;
pub const RGBA: usize = 7;
pub const REM: usize = 8;
pub const EM: usize = 9;
pub const VW: usize = 10;
pub const VH: usize = 11;
pub const VMAX: usize = 12;
pub const VMIN: usize = 13;

/// What a value with a given unit tag is a multiple of.
#[derive(Clone, Copy, Debug, PartialEq, Eq, Structural)]
pub enum Basis {
    /// The value is absolute already.
    Absolute,
    /// Hundredths of the reference dimension supplied with the value.
    Reference,
    /// Hundredths of the viewport width.
    ViewportWidth,
    /// Hundredths of the viewport height.
    ViewportHeight,
    /// Hundredths of the larger viewport side.
    ViewportMax,
    /// Hundredths of the smaller viewport side.
    ViewportMin,
    /// Multiples of the root font size.
    RootFont,
}

/// The basis of each unit tag. Tags that name no relative unit are absolute.
pub open spec fn spec_basis_of(u: usize) -> Basis {
    if u == PERCENT {
        Basis::Reference
    } else if u == VW {
        Basis::ViewportWidth
    } else if u == VH {
        Basis::ViewportHeight
    } else if u == VMAX {
        Basis::ViewportMax
    } else if u == VMIN {
        Basis::ViewportMin
    } else if u == REM {
        Basis::RootFont
    } else {
        Basis::Absolute
    }
}

/// Tells what a value tagged `u` has to be multiplied with to become absolute.
pub fn basis_of(u: usize) -> (basis: Basis)
    ensures
        basis == spec_basis_of(u),
{
    if u == PERCENT {
        Basis::Reference
    } else if u == VW {
        Basis::ViewportWidth
    } else if u == VH {
        Basis::ViewportHeight
    } else if u == VMAX {
        Basis::ViewportMax
    } else if u == VMIN {
        Basis::ViewportMin
    } else if u == REM {
        Basis::RootFont
    } else {
        Basis::Absolute
    }
}

} // verus!
