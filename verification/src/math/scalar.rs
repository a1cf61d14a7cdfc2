//! Scalars are carried as IEEE 754 binary64 bit patterns. The crate never
//! computes with them: it copies them, and asks only the few questions that
//! can be answered from the bits alone.
use vstd::prelude::*;

verus! {

/// Positive zero.
pub const ZERO: u64 = 0;

/// The number one.
pub const ONE: u64 = 0x3FF0_0000_0000_0000;

/// Positive infinity. The magnitudes above it are no numbers.
pub const INFINITY: u64 = 0x7FF0_0000_0000_0000;

/// The sign bit.
pub const SIGN: u64 = 0x8000_0000_0000_0000;

/// Every bit but the sign.
pub const MAGNITUDE: u64 = 0x7FFF_FFFF_FFFF_FFFF;

/// A pattern is zero when all bits but the sign are clear: both signed zeros
/// are the number zero, and nothing else is.
pub open spec fn spec_is_zero(x: u64) -> bool {
    x & MAGNITUDE == 0
}

/// Whether `x` is the number zero, of either sign.
pub fn is_zero(x: u64) -> (b: bool)
    ensures
        b == spec_is_zero(x),
{
    x & MAGNITUDE == 0
}

/// One has a single pattern.
pub open spec fn spec_is_one(x: u64) -> bool {
    x == ONE
}

/// Whether `x` is exactly the number one.
pub fn is_one(x: u64) -> (b: bool)
    ensures
        b == spec_is_one(x),
{
    x == ONE
}

/// A pattern is no number when its magnitude lies above infinity.
pub open spec fn spec_is_nan(x: u64) -> bool {
    x & MAGNITUDE > INFINITY
}

/// Whether `x` is no number.
pub fn is_nan(x: u64) -> (b: bool)
    ensures
        b == spec_is_nan(x),
{
    x & MAGNITUDE > INFINITY
}

/// A number is below zero when its sign is set and it is not a zero.
pub open spec fn spec_is_negative(x: u64) -> bool {
    x & SIGN != 0 && !spec_is_zero(x) && !spec_is_nan(x)
}

/// Whether `x` is a number below zero.
pub fn is_negative(x: u64) -> (b: bool)
    ensures
        b == spec_is_negative(x),
{
    x & SIGN != 0 && !is_zero(x) && !is_nan(x)
}

/// The order of numbers, read from their patterns. What is no number
/// compares with nothing. The two zeros are equal. A number below zero is
/// less than any that is not; two numbers that are not below zero compare as
/// their patterns do, and two numbers below zero the other way round.
pub open spec fn spec_le(a: u64, b: u64) -> bool {
    if spec_is_nan(a) || spec_is_nan(b) {
        false
    } else if spec_is_zero(a) && spec_is_zero(b) {
        true
    } else if spec_is_negative(a) {
        !spec_is_negative(b) || b <= a
    } else {
        !spec_is_negative(b) && (a & MAGNITUDE) <= (b & MAGNITUDE)
    }
}

/// Whether `a` is less than or equal to `b`, as numbers.
pub fn le(a: u64, b: u64) -> (r: bool)
    ensures
        r == spec_le(a, b),
{
    if is_nan(a) || is_nan(b) {
        false
    } else if is_zero(a) && is_zero(b) {
        true
    } else if is_negative(a) {
        !is_negative(b) || b <= a
    } else {
        !is_negative(b) && (a & MAGNITUDE) <= (b & MAGNITUDE)
    }
}

/// Strictly less: less than or equal, and not the other way round.
pub open spec fn spec_lt(a: u64, b: u64) -> bool {
    spec_le(a, b) && !spec_le(b, a)
}

/// Whether `a` is less than `b`, as numbers.
pub fn lt(a: u64, b: u64) -> (r: bool)
    ensures
        r == spec_lt(a, b),
{
    le(a, b) && !le(b, a)
}

/// The numbers from zero to one, both included.
pub open spec fn spec_in_unit_interval(x: u64) -> bool {
    spec_le(ZERO, x) && spec_le(x, ONE)
}

/// Whether `x` is a number between zero and one, both included.
pub fn in_unit_interval(x: u64) -> (b: bool)
    ensures
        b == spec_in_unit_interval(x),
{
    le(ZERO, x) && le(x, ONE)
}

} // verus!
