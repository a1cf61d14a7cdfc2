//! Exact progress within a keyframe interval, as a fraction of two tick counts.
use vstd::prelude::*;

verus! {

/// A fraction of two integers, as a value.
pub struct Ratio {
    pub num: int,
    pub den: int,
}

impl Ratio {
    /// Two fractions stand for the same number when they agree after cross
    /// multiplication.
    pub open spec fn same_value(self, other: Ratio) -> bool {
        self.num * other.den == other.num * self.den
    }

    /// The fraction is one half.
    pub open spec fn is_half(self) -> bool {
        self.den != 0 && 2 * self.num == self.den
    }
}

/// A non-negative fraction. It is kept as it was formed, not in lowest terms.
#[derive(Clone, Copy, Debug, PartialEq, Eq, Structural)]
pub struct Fraction {
    pub num: u64,
    pub den: u64,
}

impl View for Fraction {
    type V = Ratio;

    open spec fn view(&self) -> Ratio {
        Ratio { num: self.num as int, den: self.den as int }
    }
}

impl Fraction {
    /// The fraction zero.
    pub fn zero() -> (f: Fraction)
        ensures
            f@ == (Ratio { num: 0, den: 1 }),
    {
        Fraction { num: 0, den: 1 }
    }

    /// Compares two fractions by value.
    pub fn equals(&self, other: &Fraction) -> (b: bool)
        ensures
            b == self@.same_value(other@),
    {
        let a: u128 = self.num as u128;
        let b: u128 = other.den as u128;
        let c: u128 = other.num as u128;
        let d: u128 = self.den as u128;
        assert(a * b <= 0xFFFF_FFFF_FFFF_FFFF * 0xFFFF_FFFF_FFFF_FFFF) by (nonlinear_arith)
            requires
                a <= 0xFFFF_FFFF_FFFF_FFFF,
                b <= 0xFFFF_FFFF_FFFF_FFFF,
        ;
        assert(c * d <= 0xFFFF_FFFF_FFFF_FFFF * 0xFFFF_FFFF_FFFF_FFFF) by (nonlinear_arith)
            requires
                c <= 0xFFFF_FFFF_FFFF_FFFF,
                d <= 0xFFFF_FFFF_FFFF_FFFF,
        ;
        a * b == c * d
    }
}

} // verus!
