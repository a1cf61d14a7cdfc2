//! How the local matrix of a node follows its style: which changes can be
//! worked into the matrix in place, and what a matrix is rebuilt from.
use vstd::prelude::*;
use crate::math::matrix::{axis, is_e, spec_axis, spec_is_e, Axis};
use crate::math::scalar;
use crate::node::node::Node;
use crate::refresh::level;
use crate::style::key;

verus! {

/// How the local matrix of a node is brought up to date.
#[derive(Clone, Copy, Debug, PartialEq, Eq, Structural)]
pub enum MatrixPlan {
    /// It is rebuilt from the identity.
    Full,
    /// It is edited in place, for each component that is marked.
    Fast {
        translate_x: bool,
        translate_y: bool,
        translate_z: bool,
        rotate_z: bool,
        scale_x: bool,
        scale_y: bool,
        scale_z: bool,
    },
}

/// Whether a change of level `rl` forces a rebuild, given the resolved style
/// that the matrix was last made from.
///
/// It does when the generic transform bit is raised or the level reaches a
/// repaint, when a scale changes that was zero, so that no ratio to the new
/// scale exists, and when the rotation about z changes while the node is
/// tilted.
pub open spec fn spec_needs_full(rl: usize, computed: Seq<u64>) -> bool {
    ||| level::spec_has(rl, level::TRANSFORM)
    ||| rl >= level::REPAINT
    ||| level::spec_has(rl, level::SCALE_X) && scalar::spec_is_zero(computed[key::SCALE_X as int])
    ||| level::spec_has(rl, level::SCALE_Y) && scalar::spec_is_zero(computed[key::SCALE_Y as int])
    ||| level::spec_has(rl, level::SCALE_Z) && scalar::spec_is_zero(computed[key::SCALE_Z as int])
    ||| level::spec_has(rl, level::ROTATE_Z) && spec_tilted(computed)
}

/// A node is tilted when a rotation about x or y, a rotation about a free
/// axis, or a skew is in effect: when any of those angles is not zero.
pub open spec fn spec_tilted(computed: Seq<u64>) -> bool {
    ||| !scalar::spec_is_zero(computed[key::ROTATE_X as int])
    ||| !scalar::spec_is_zero(computed[key::ROTATE_Y as int])
    ||| !scalar::spec_is_zero(computed[key::ROTATE_3D_A as int])
    ||| !scalar::spec_is_zero(computed[key::SKEW_X as int])
    ||| !scalar::spec_is_zero(computed[key::SKEW_Y as int])
}

/// The plan for a change of level `rl`: a rebuild where one is forced, else an
/// edit of exactly the components whose bits are raised.
pub open spec fn spec_plan(rl: usize, computed: Seq<u64>) -> MatrixPlan {
    if spec_needs_full(rl, computed) {
        MatrixPlan::Full
    } else {
        MatrixPlan::Fast {
            translate_x: level::spec_has(rl, level::TRANSLATE_X),
            translate_y: level::spec_has(rl, level::TRANSLATE_Y),
            translate_z: level::spec_has(rl, level::TRANSLATE_Z),
            rotate_z: level::spec_has(rl, level::ROTATE_Z),
            scale_x: level::spec_has(rl, level::SCALE_X),
            scale_y: level::spec_has(rl, level::SCALE_Y),
            scale_z: level::spec_has(rl, level::SCALE_Z),
        }
    }
}

/// One factor of a local matrix.
#[derive(Clone, Copy, Debug, PartialEq, Eq, Structural)]
pub enum Step {
    TranslateX,
    TranslateY,
    TranslateZ,
    RotateX,
    RotateY,
    RotateZ,
    /// The rotation about a free axis, of the given kind.
    Rotate3d(Axis),
    SkewX,
    SkewY,
    ScaleX,
    ScaleY,
    ScaleZ,
}

/// Whether a style asks for a rotation about a free axis: the axis has a
/// component that is not zero, and neither is the angle.
pub open spec fn spec_rotates_free(style: Seq<u64>) -> bool {
    &&& !scalar::spec_is_zero(style[key::ROTATE_3D_A as int])
    &&& {
        ||| !scalar::spec_is_zero(style[key::ROTATE_3D_X as int])
        ||| !scalar::spec_is_zero(style[key::ROTATE_3D_Y as int])
        ||| !scalar::spec_is_zero(style[key::ROTATE_3D_Z as int])
    }
}

/// Every factor that a local matrix can have, in the order in which the
/// factors are multiplied on to the identity, each with whether the style
/// gives it an effect: the translations always, a rotation or a skew when
/// its angle is not zero, a scale when it is not one.
pub open spec fn spec_factors(style: Seq<u64>) -> Seq<(bool, Step)> {
    seq![
        (true, Step::TranslateX),
        (true, Step::TranslateY),
        (true, Step::TranslateZ),
        (!scalar::spec_is_zero(style[key::ROTATE_X as int]), Step::RotateX),
        (!scalar::spec_is_zero(style[key::ROTATE_Y as int]), Step::RotateY),
        (!scalar::spec_is_zero(style[key::ROTATE_Z as int]), Step::RotateZ),
        (
            spec_rotates_free(style),
            Step::Rotate3d(
                spec_axis(
                    style[key::ROTATE_3D_X as int],
                    style[key::ROTATE_3D_Y as int],
                    style[key::ROTATE_3D_Z as int],
                ),
            ),
        ),
        (!scalar::spec_is_zero(style[key::SKEW_X as int]), Step::SkewX),
        (!scalar::spec_is_zero(style[key::SKEW_Y as int]), Step::SkewY),
        (!scalar::spec_is_one(style[key::SCALE_X as int]), Step::ScaleX),
        (!scalar::spec_is_one(style[key::SCALE_Y as int]), Step::ScaleY),
        (!scalar::spec_is_one(style[key::SCALE_Z as int]), Step::ScaleZ),
    ]
}

/// The factors with an effect, in their order.
pub open spec fn spec_effective(factors: Seq<(bool, Step)>) -> Seq<Step>
    decreases factors.len(),
{
    if factors.len() == 0 {
        Seq::empty()
    } else {
        let rest = spec_effective(factors.drop_last());
        if factors.last().0 {
            rest.push(factors.last().1)
        } else {
            rest
        }
    }
}

/// The factors that a local matrix is rebuilt from, in order.
pub open spec fn spec_rebuild(style: Seq<u64>) -> Seq<Step> {
    spec_effective(spec_factors(style))
}

/// Whether a rebuilt matrix is wrapped so that the transform origin stays
/// fixed: it is unless the origin lies at zero or the matrix is the identity.
pub open spec fn spec_keeps_origin(ox: u64, oy: u64, matrix: Seq<u64>) -> bool {
    !(scalar::spec_is_zero(ox) && scalar::spec_is_zero(oy)) && !spec_is_e(matrix)
}

impl Node {
    /// Plans how the local matrix follows a change of level `rl`, given the
    /// resolved style that it was last made from.
    pub fn cal_matrix(rl: usize, computed: &[u64; 18]) -> (plan: MatrixPlan)
        ensures
            plan == spec_plan(rl, computed@),
    {
        let full = if level::has(rl, level::TRANSFORM) || rl >= level::REPAINT {
            true
        } else if level::has(rl, level::SCALE_X) && scalar::is_zero(computed[key::SCALE_X]) {
            true
        } else if level::has(rl, level::SCALE_Y) && scalar::is_zero(computed[key::SCALE_Y]) {
            true
        } else if level::has(rl, level::SCALE_Z) && scalar::is_zero(computed[key::SCALE_Z]) {
            true
        } else {
            level::has(rl, level::ROTATE_Z) && (!scalar::is_zero(computed[key::ROTATE_X])
                || !scalar::is_zero(computed[key::ROTATE_Y]) || !scalar::is_zero(
                computed[key::ROTATE_3D_A],
            ) || !scalar::is_zero(computed[key::SKEW_X]) || !scalar::is_zero(
                computed[key::SKEW_Y],
            ))
        };
        if full {
            MatrixPlan::Full
        } else {
            MatrixPlan::Fast {
                translate_x: level::has(rl, level::TRANSLATE_X),
                translate_y: level::has(rl, level::TRANSLATE_Y),
                translate_z: level::has(rl, level::TRANSLATE_Z),
                rotate_z: level::has(rl, level::ROTATE_Z),
                scale_x: level::has(rl, level::SCALE_X),
                scale_y: level::has(rl, level::SCALE_Y),
                scale_z: level::has(rl, level::SCALE_Z),
            }
        }
    }

    /// Lists the factors that the local matrix is rebuilt from, in order,
    /// for the style that the author set.
    pub fn rebuild_steps(style: &[u64; 18]) -> (steps: Vec<Step>)
        ensures
            steps@ == spec_rebuild(style@),
    {
        let free = !scalar::is_zero(style[key::ROTATE_3D_A]) && (!scalar::is_zero(
            style[key::ROTATE_3D_X],
        ) || !scalar::is_zero(style[key::ROTATE_3D_Y]) || !scalar::is_zero(
            style[key::ROTATE_3D_Z],
        ));
        let about = axis(style[key::ROTATE_3D_X], style[key::ROTATE_3D_Y], style[key::ROTATE_3D_Z]);
        let factors: [(bool, Step); 12] = [
            (true, Step::TranslateX),
            (true, Step::TranslateY),
            (true, Step::TranslateZ),
            (!scalar::is_zero(style[key::ROTATE_X]), Step::RotateX),
            (!scalar::is_zero(style[key::ROTATE_Y]), Step::RotateY),
            (!scalar::is_zero(style[key::ROTATE_Z]), Step::RotateZ),
            (free, Step::Rotate3d(about)),
            (!scalar::is_zero(style[key::SKEW_X]), Step::SkewX),
            (!scalar::is_zero(style[key::SKEW_Y]), Step::SkewY),
            (!scalar::is_one(style[key::SCALE_X]), Step::ScaleX),
            (!scalar::is_one(style[key::SCALE_Y]), Step::ScaleY),
            (!scalar::is_one(style[key::SCALE_Z]), Step::ScaleZ),
        ];
        assert(factors@ =~= spec_factors(style@));
        let mut steps: Vec<Step> = Vec::new();
        let mut i: usize = 0;
        while i < 12
            invariant
                i <= 12,
                factors@.len() == 12,
                steps@ == spec_effective(factors@.take(i as int)),
            decreases 12 - i,
        {
            proof {
                let next = factors@.take(i + 1);
                assert(next.drop_last() =~= factors@.take(i as int));
                assert(next.last() == factors@[i as int]);
            }
            if factors[i].0 {
                steps.push(factors[i].1);
            }
            i += 1;
        }
        assert(factors@.take(12) =~= factors@);
        steps
    }

    /// Tells whether a rebuilt matrix is to be wrapped so that the transform
    /// origin `(ox, oy)` stays fixed.
    pub fn keeps_origin(ox: u64, oy: u64, matrix: &[u64; 16]) -> (b: bool)
        ensures
            b == spec_keeps_origin(ox, oy, matrix@),
    {
        !(scalar::is_zero(ox) && scalar::is_zero(oy)) && !is_e(matrix)
    }
}

} // verus!
