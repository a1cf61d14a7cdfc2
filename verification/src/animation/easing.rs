//! Timing curves as data. A curve is a cubic with fixed end points, given by
//! the coordinates of its two inner control points. Evaluating it is the
//! caller's business; here a curve is chosen, checked and handed on.
use vstd::prelude::*;
use crate::math::fraction::{Fraction, Ratio};
use crate::math::scalar;

verus! {

/// Easing codes, as keyframes and timelines carry them.
pub const DEFAULT: u8 = 0;
pub const LINEAR: u8 = 1;
pub const EASE_IN: u8 = 2;
pub const EASE_OUT: u8 = 3;
pub const EASE: u8 = 4;
pub const EASE_IN_OUT: u8 = 5;
pub const EASE_CUSTOM: u8 = 6;

/// The inner control points `(x1, y1)` and `(x2, y2)` of a timing curve, each
/// coordinate a binary64 pattern.
#[derive(Clone, Copy, Debug, PartialEq, Eq, Structural)]
pub struct Bezier {
    pub x1: u64,
    pub y1: u64,
    pub x2: u64,
    pub y2: u64,
}

impl Bezier {
    /// A curve maps time to progress only if it never turns back in time,
    /// which is the case when both x coordinates lie between zero and one.
    pub open spec fn valid(self) -> bool {
        scalar::spec_in_unit_interval(self.x1) && scalar::spec_in_unit_interval(self.x2)
    }

    /// The curve with the given control points.
    pub fn new(x1: u64, y1: u64, x2: u64, y2: u64) -> (b: Bezier)
        ensures
            b == (Bezier { x1, y1, x2, y2 }),
    {
        Bezier { x1, y1, x2, y2 }
    }

    /// Whether the curve is a function of time.
    pub fn is_valid(&self) -> (b: bool)
        ensures
            b == self.valid(),
    {
        scalar::in_unit_interval(self.x1) && scalar::in_unit_interval(self.x2)
    }
}

/// The curve with the given control points.
pub fn bezier(x1: u64, y1: u64, x2: u64, y2: u64) -> (b: Bezier)
    ensures
        b == (Bezier { x1, y1, x2, y2 }),
{
    Bezier::new(x1, y1, x2, y2)
}

/// The curve of a keyframe: one of the named presets, or one of its own.
#[derive(Clone, Copy, Debug, PartialEq, Eq, Structural)]
pub enum BezierEnum {
    Linear,
    EaseIn,
    EaseOut,
    Ease,
    EaseInOut,
    Custom(Bezier),
}

/// Patterns of the coordinates that the presets are made of.
pub const C_0: u64 = 0;
pub const C_1_10: u64 = 0x3FB9_9999_9999_999A;
pub const C_1_4: u64 = 0x3FD0_0000_0000_0000;
pub const C_42_100: u64 = 0x3FDA_E147_AE14_7AE1;
pub const C_58_100: u64 = 0x3FE2_8F5C_28F5_C28F;
pub const C_1: u64 = 0x3FF0_0000_0000_0000;

impl BezierEnum {
    /// The control points of each curve: those of the presets are fixed, a
    /// custom curve has its own.
    pub open spec fn spec_control_points(self) -> Bezier {
        match self {
            BezierEnum::Linear => Bezier { x1: C_0, y1: C_0, x2: C_1, y2: C_1 },
            BezierEnum::EaseIn => Bezier { x1: C_42_100, y1: C_0, x2: C_1, y2: C_1 },
            BezierEnum::EaseOut => Bezier { x1: C_0, y1: C_0, x2: C_58_100, y2: C_1 },
            BezierEnum::Ease => Bezier { x1: C_1_4, y1: C_1_10, x2: C_1_4, y2: C_1 },
            BezierEnum::EaseInOut => Bezier { x1: C_42_100, y1: C_0, x2: C_58_100, y2: C_1 },
            BezierEnum::Custom(b) => b,
        }
    }

    /// The control points of the curve.
    pub fn control_points(&self) -> (b: Bezier)
        ensures
            b == self.spec_control_points(),
    {
        match self {
            BezierEnum::Linear => Bezier { x1: C_0, y1: C_0, x2: C_1, y2: C_1 },
            BezierEnum::EaseIn => Bezier { x1: C_42_100, y1: C_0, x2: C_1, y2: C_1 },
            BezierEnum::EaseOut => Bezier { x1: C_0, y1: C_0, x2: C_58_100, y2: C_1 },
            BezierEnum::Ease => Bezier { x1: C_1_4, y1: C_1_10, x2: C_1_4, y2: C_1 },
            BezierEnum::EaseInOut => Bezier { x1: C_42_100, y1: C_0, x2: C_58_100, y2: C_1 },
            BezierEnum::Custom(b) => *b,
        }
    }
}

/// The preset that an easing code names, if it names one.
pub open spec fn spec_preset(code: u8) -> Option<BezierEnum> {
    if code == EASE_IN {
        Some(BezierEnum::EaseIn)
    } else if code == EASE_OUT {
        Some(BezierEnum::EaseOut)
    } else if code == EASE {
        Some(BezierEnum::Ease)
    } else if code == EASE_IN_OUT {
        Some(BezierEnum::EaseInOut)
    } else if code == LINEAR {
        Some(BezierEnum::Linear)
    } else {
        None
    }
}

/// The curve a keyframe gets. Its own code decides where it names a preset or
/// a custom curve, which is then made of `own`. Any other code defers to the
/// timeline: to its preset, to its custom curve `inherited`, or, where the
/// timeline's code names nothing either, to the linear curve.
pub open spec fn spec_select(code: u8, own: Bezier, fallback: u8, inherited: Bezier) -> BezierEnum {
    if code == EASE_CUSTOM {
        BezierEnum::Custom(own)
    } else if spec_preset(code) is Some {
        spec_preset(code)->0
    } else if fallback == EASE_CUSTOM {
        BezierEnum::Custom(inherited)
    } else if spec_preset(fallback) is Some {
        spec_preset(fallback)->0
    } else {
        BezierEnum::Linear
    }
}

/// Chooses the curve of a keyframe from its own easing code and control points
/// and from the timeline's.
pub fn select(code: u8, own: Bezier, fallback: u8, inherited: Bezier) -> (b: BezierEnum)
    ensures
        b == spec_select(code, own, fallback, inherited),
{
    if code == EASE_IN {
        BezierEnum::EaseIn
    } else if code == EASE_OUT {
        BezierEnum::EaseOut
    } else if code == EASE {
        BezierEnum::Ease
    } else if code == EASE_IN_OUT {
        BezierEnum::EaseInOut
    } else if code == EASE_CUSTOM {
        BezierEnum::Custom(own)
    } else if code == LINEAR {
        BezierEnum::Linear
    } else if fallback == EASE_IN {
        BezierEnum::EaseIn
    } else if fallback == EASE_OUT {
        BezierEnum::EaseOut
    } else if fallback == EASE {
        BezierEnum::Ease
    } else if fallback == EASE_IN_OUT {
        BezierEnum::EaseInOut
    } else if fallback == EASE_CUSTOM {
        BezierEnum::Custom(inherited)
    } else {
        BezierEnum::Linear
    }
}

/// How eased progress is had from progress.
#[derive(Clone, Copy, Debug, PartialEq, Eq, Structural)]
pub enum Eased {
    /// It is the progress itself.
    Same,
    /// It is where the curve with these control points takes the progress.
    Through(Bezier),
}

/// Eased progress is the progress itself along the linear curve, and at the
/// start and the end of every curve, which all run from zero to one. Anywhere
/// else the curve has to be evaluated.
pub open spec fn spec_eased(curve: BezierEnum, percent: Ratio) -> Eased {
    if curve is Linear || percent.num == 0 || percent.num == percent.den {
        Eased::Same
    } else {
        Eased::Through(curve.spec_control_points())
    }
}

/// Decides how the eased progress at `percent` along `curve` is had.
pub fn eased(curve: &BezierEnum, percent: &Fraction) -> (e: Eased)
    ensures
        e == spec_eased(*curve, percent@),
{
    match curve {
        BezierEnum::Linear => Eased::Same,
        _ => {
            if percent.num == 0 || percent.num == percent.den {
                Eased::Same
            } else {
                Eased::Through(curve.control_points())
            }
        },
    }
}

/// Every curve takes zero to zero and one to one, exactly.
pub proof fn lemma_end_points_fixed(curve: BezierEnum, den: int)
    ensures
        spec_eased(curve, Ratio { num: 0, den }) == Eased::Same,
        spec_eased(curve, Ratio { num: den, den }) == Eased::Same,
{
}

/// The linear curve takes every progress to itself.
pub proof fn lemma_linear_is_identity(percent: Ratio)
    ensures
        spec_eased(BezierEnum::Linear, percent) == Eased::Same,
{
}

/// The number of samples that a curve is bracketed with: its x coordinate at
/// parameters from zero to one in ten equal steps.
pub const SAMPLES: usize = 11;

/// The pattern of the least slope, one thousandth, at which Newton's method
/// is trusted.
pub const NEWTON_MIN_SLOPE: u64 = 0x3F50_624D_D2F1_A9FC;

/// How often Newton's method is applied at most.
pub const NEWTON_ITERATIONS: usize = 4;

/// How often an interval is halved at most.
pub const SUBDIVISION_MAX_ITERATIONS: usize = 10;

/// The pattern of the distance from the target, one ten-millionth, at which
/// halving stops.
pub const SUBDIVISION_PRECISION: u64 = 0x3E7A_D7F2_9ABC_AF48;

/// `s` is the sample interval that brackets `x`: every sample from the second
/// up to the start of the interval is at most `x`, and the interval is the
/// last one or its end is not.
pub open spec fn is_bracket(samples: Seq<u64>, x: u64, s: int) -> bool {
    &&& 0 <= s < samples.len() - 1
    &&& forall|j: int| 1 <= j <= s ==> scalar::spec_le(#[trigger] samples[j], x)
    &&& s == samples.len() - 2 || !scalar::spec_le(samples[s + 1], x)
}

/// One interval at most brackets `x`.
pub proof fn lemma_bracket_unique(samples: Seq<u64>, x: u64, s: int, t: int)
    requires
        is_bracket(samples, x, s),
        is_bracket(samples, x, t),
    ensures
        s == t,
{
    if s < t {
        assert(scalar::spec_le(samples[s + 1], x));
    } else if t < s {
        assert(scalar::spec_le(samples[t + 1], x));
    }
}

/// Finds the sample interval that brackets `x`, walking up the samples.
pub fn bracket(samples: &[u64; 11], x: u64) -> (s: usize)
    ensures
        is_bracket(samples@, x, s as int),
{
    let last_sample: usize = SAMPLES - 1;
    let mut current_sample: usize = 1;
    while current_sample != last_sample && scalar::le(samples[current_sample], x)
        invariant
            1 <= current_sample <= last_sample,
            last_sample == 10,
            forall|j: int| 1 <= j < current_sample ==> scalar::spec_le(#[trigger] samples@[j], x),
        decreases last_sample - current_sample,
    {
        current_sample += 1;
    }
    current_sample - 1
}

/// How a first estimate of the parameter is refined.
#[derive(Clone, Copy, Debug, PartialEq, Eq, Structural)]
pub enum Refine {
    /// By Newton's method: the curve is steep enough.
    Newton,
    /// Not at all: the curve is flat, and the estimate is taken as it is.
    Accept,
    /// By halving the bracket: the curve is nearly flat, where Newton's
    /// method strays.
    Subdivide,
}

/// The refinement for a slope: none at a slope of zero, Newton's method at a
/// slope of magnitude one thousandth or more, halving for anything else.
pub open spec fn spec_refine(slope: u64) -> Refine {
    if scalar::spec_is_zero(slope) {
        Refine::Accept
    } else if scalar::spec_le(NEWTON_MIN_SLOPE, slope & scalar::MAGNITUDE) {
        Refine::Newton
    } else {
        Refine::Subdivide
    }
}

/// Chooses how an estimate is refined from the slope of the curve there.
pub fn refine(slope: u64) -> (r: Refine)
    ensures
        r == spec_refine(slope),
{
    if scalar::is_zero(slope) {
        Refine::Accept
    } else if scalar::le(NEWTON_MIN_SLOPE, slope & scalar::MAGNITUDE) {
        Refine::Newton
    } else {
        Refine::Subdivide
    }
}

/// Newton's method takes another step after `done` steps while fewer than
/// four are done and the curve is not flat where it stands.
pub open spec fn spec_newton_goes_on(done: usize, slope: u64) -> bool {
    done < NEWTON_ITERATIONS && !scalar::spec_is_zero(slope)
}

/// Tells whether Newton's method takes another step after `done` steps, at a
/// point where the slope of the curve is `slope`.
pub fn newton_goes_on(done: usize, slope: u64) -> (b: bool)
    ensures
        b == spec_newton_goes_on(done, slope),
{
    done < NEWTON_ITERATIONS && !scalar::is_zero(slope)
}

/// The half of an interval that the target lies in.
#[derive(Clone, Copy, Debug, PartialEq, Eq, Structural)]
pub enum Half {
    Lower,
    Upper,
}

/// The target lies in the lower half when the curve at the middle is past
/// it: when what it is off by there is above zero.
pub open spec fn spec_half(off: u64) -> Half {
    if scalar::spec_lt(scalar::ZERO, off) {
        Half::Lower
    } else {
        Half::Upper
    }
}

/// Chooses the half to go on with from what the curve at the middle of the
/// interval is off the target by.
pub fn half(off: u64) -> (h: Half)
    ensures
        h == spec_half(off),
{
    if scalar::lt(scalar::ZERO, off) {
        Half::Lower
    } else {
        Half::Upper
    }
}

/// Halving goes on after `done` halvings while the curve at the middle is
/// off the target by more than the precision, and fewer than ten are done.
pub open spec fn spec_halving_goes_on(done: usize, off: u64) -> bool {
    !scalar::spec_le(off & scalar::MAGNITUDE, SUBDIVISION_PRECISION) && done
        < SUBDIVISION_MAX_ITERATIONS
}

/// Tells whether an interval is halved again after `done` halvings, the
/// curve at the last middle being off the target by `off`.
pub fn halving_goes_on(done: usize, off: u64) -> (b: bool)
    ensures
        b == spec_halving_goes_on(done, off),
{
    !scalar::le(off & scalar::MAGNITUDE, SUBDIVISION_PRECISION) && done
        < SUBDIVISION_MAX_ITERATIONS
}

/// Every preset is a valid curve.
pub proof fn lemma_presets_valid(e: BezierEnum)
    requires
        !(e is Custom),
    ensures
        e.spec_control_points().valid(),
{
    assert(scalar::spec_in_unit_interval(C_0)) by (bit_vector);
    assert(scalar::spec_in_unit_interval(C_1_4)) by (bit_vector);
    assert(scalar::spec_in_unit_interval(C_42_100)) by (bit_vector);
    assert(scalar::spec_in_unit_interval(C_58_100)) by (bit_vector);
    assert(scalar::spec_in_unit_interval(C_1)) by (bit_vector);
}

} // verus!
