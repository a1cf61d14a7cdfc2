//! 4x4 matrices of sixteen scalars, and the part of a matrix product that
//! needs no arithmetic: a product with the identity.
use vstd::prelude::*;
use crate::math::scalar;

verus! {

/// The identity: ones on the diagonal, positive zeros elsewhere.
pub open spec fn spec_identity() -> Seq<u64> {
    Seq::new(16, |i: int| if i % 5 == 0 { scalar::ONE } else { scalar::ZERO })
}

/// A matrix is the identity when every diagonal entry is exactly one and every
/// other entry is a zero of either sign. Nothing is rounded.
pub open spec fn spec_is_e(m: Seq<u64>) -> bool {
    &&& m.len() == 16
    &&& forall|i: int|
        0 <= i < 16 ==> if i % 5 == 0 {
            scalar::spec_is_one(#[trigger] m[i])
        } else {
            scalar::spec_is_zero(m[i])
        }
}

/// A fresh identity matrix.
pub fn identity() -> (m: [u64; 16])
    ensures
        m@ == spec_identity(),
        spec_is_e(m@),
{
    let o: u64 = scalar::ONE;
    let z: u64 = scalar::ZERO;
    let m: [u64; 16] = [o, z, z, z, z, o, z, z, z, z, o, z, z, z, z, o];
    assert(m@ =~= spec_identity());
    assert(scalar::ZERO & scalar::MAGNITUDE == 0) by (bit_vector);
    m
}

/// Tests a matrix for being the identity, entry by entry.
pub fn is_e(m: &[u64; 16]) -> (b: bool)
    ensures
        b == spec_is_e(m@),
{
    let mut i: usize = 0;
    while i < 16
        invariant
            i <= 16,
            forall|j: int|
                0 <= j < i ==> if j % 5 == 0 {
                    scalar::spec_is_one(#[trigger] m@[j])
                } else {
                    scalar::spec_is_zero(m@[j])
                },
        decreases 16 - i,
    {
        let ok = if i % 5 == 0 {
            scalar::is_one(m[i])
        } else {
            scalar::is_zero(m[i])
        };
        if !ok {
            return false;
        }
        i += 1;
    }
    true
}

/// Copies `m2` into `m1`.
pub fn assign_m(m1: &mut [u64; 16], m2: &[u64; 16])
    ensures
        final(m1)@ == m2@,
{
    let mut i: usize = 0;
    while i < 16
        invariant
            i <= 16,
            forall|j: int| 0 <= j < i ==> m1@[j] == m2@[j],
        decreases 16 - i,
    {
        m1[i] = m2[i];
        i += 1;
    }
}

/// A matrix keeps a box upright when it neither turns nor shears it: when
/// the entries that mix x with y and either with z are zeros. The corners that
/// were taken through it must not be foreshortened either: their homogeneous
/// coordinates `w1` and `w3` are exactly one.
pub open spec fn spec_is_upright(m: Seq<u64>, w1: u64, w3: u64) -> bool {
    &&& scalar::spec_is_one(w1)
    &&& scalar::spec_is_one(w3)
    &&& scalar::spec_is_zero(m[1])
    &&& scalar::spec_is_zero(m[2])
    &&& scalar::spec_is_zero(m[4])
    &&& scalar::spec_is_zero(m[6])
    &&& scalar::spec_is_zero(m[7])
    &&& scalar::spec_is_zero(m[8])
}

/// Tells whether the four corners of a box under `m` follow from two opposite
/// ones, whose homogeneous coordinates are `w1` and `w3`, by reflection.
pub fn is_upright(m: &[u64; 16], w1: u64, w3: u64) -> (b: bool)
    ensures
        b == spec_is_upright(m@, w1, w3),
{
    scalar::is_one(w1) && scalar::is_one(w3) && scalar::is_zero(m[1]) && scalar::is_zero(m[2])
        && scalar::is_zero(m[4]) && scalar::is_zero(m[6]) && scalar::is_zero(m[7])
        && scalar::is_zero(m[8])
}

/// The axis of a free rotation, as far as it decides how the rotation is
/// made.
#[derive(Clone, Copy, Debug, PartialEq, Eq, Structural)]
pub enum Axis {
    /// The x axis, pointing backwards where `flipped`.
    X { flipped: bool },
    /// The y axis, pointing backwards where `flipped`.
    Y { flipped: bool },
    /// The z axis, pointing backwards where `flipped`.
    Z { flipped: bool },
    /// Any other direction.
    Free,
}

/// The axis with the given components: a coordinate axis where exactly one
/// component is not zero, flipped where that one is below zero.
pub open spec fn spec_axis(x: u64, y: u64, z: u64) -> Axis {
    let (on_x, on_y, on_z) = (
        !scalar::spec_is_zero(x),
        !scalar::spec_is_zero(y),
        !scalar::spec_is_zero(z),
    );
    if on_x && !on_y && !on_z {
        Axis::X { flipped: scalar::spec_is_negative(x) }
    } else if on_y && !on_x && !on_z {
        Axis::Y { flipped: scalar::spec_is_negative(y) }
    } else if on_z && !on_x && !on_y {
        Axis::Z { flipped: scalar::spec_is_negative(z) }
    } else {
        Axis::Free
    }
}

/// Classifies the axis of a free rotation.
pub fn axis(x: u64, y: u64, z: u64) -> (a: Axis)
    ensures
        a == spec_axis(x, y, z),
{
    let on_x = !scalar::is_zero(x);
    let on_y = !scalar::is_zero(y);
    let on_z = !scalar::is_zero(z);
    if on_x && !on_y && !on_z {
        Axis::X { flipped: scalar::is_negative(x) }
    } else if on_y && !on_x && !on_z {
        Axis::Y { flipped: scalar::is_negative(y) }
    } else if on_z && !on_x && !on_y {
        Axis::Z { flipped: scalar::is_negative(z) }
    } else {
        Axis::Free
    }
}

/// The product of two matrices as far as it needs no arithmetic: where one of
/// them is the identity it is the other one, untouched. The left operand is
/// looked at first, so the product of two identities is the right one.
pub open spec fn spec_multiply_identity(m1: Seq<u64>, m2: Seq<u64>) -> Option<Seq<u64>> {
    if spec_is_e(m1) {
        Some(m2)
    } else if spec_is_e(m2) {
        Some(m1)
    } else {
        None
    }
}

/// Writes `m1 * m2` into `m` where one of the two is the identity, and reports
/// whether it did. The result is then the other operand, bit for bit. Where
/// neither is the identity `m` is left as it was, and the caller multiplies.
pub fn multiply_identity(m1: &[u64; 16], m2: &[u64; 16], m: &mut [u64; 16]) -> (done: bool)
    ensures
        done == spec_multiply_identity(m1@, m2@).is_some(),
        final(m)@ == (match spec_multiply_identity(m1@, m2@) {
            Some(product) => product,
            None => old(m)@,
        }),
{
    if is_e(m1) {
        assign_m(m, m2);
        true
    } else if is_e(m2) {
        assign_m(m, m1);
        true
    } else {
        false
    }
}

/// Composing a matrix with the identity yields that matrix exactly: on the
/// left for every matrix, on the right for every matrix that is not itself
/// an identity.
pub proof fn lemma_identity_is_neutral(e: Seq<u64>, m: Seq<u64>)
    requires
        spec_is_e(e),
    ensures
        spec_multiply_identity(e, m) == Some(m),
        !spec_is_e(m) ==> spec_multiply_identity(m, e) == Some(m),
{
}

} // verus!
