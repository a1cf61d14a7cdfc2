use anim_core::math::matrix::{assign_m, identity, is_e, multiply_identity};
use anim_core::math::matrix::{axis, is_upright, Axis};

fn matrix(entries: [f64; 16]) -> [u64; 16] {
    entries.map(f64::to_bits)
}

#[test]
fn the_identity_has_ones_on_the_diagonal() {
    let m = identity();
    let expected = matrix([1.0, 0.0, 0.0, 0.0, 0.0, 1.0, 0.0, 0.0, 0.0, 0.0, 1.0, 0.0, 0.0, 0.0, 0.0, 1.0]);
    assert_eq!(m, expected);
    assert!(is_e(&m));
}

#[test]
fn the_identity_test_is_exact() {
    let mut m = identity();
    m[1] = (-0.0f64).to_bits();
    m[14] = (-0.0f64).to_bits();
    assert!(is_e(&m));
    for i in 0..16 {
        let mut off = identity();
        off[i] = if i % 5 == 0 { 0.9999999999999999f64.to_bits() } else { 5e-324f64.to_bits() };
        assert!(!is_e(&off));
        let mut nan = identity();
        nan[i] = f64::NAN.to_bits();
        assert!(!is_e(&nan));
    }
    let mut minus = identity();
    minus[0] = (-1.0f64).to_bits();
    assert!(!is_e(&minus));
    assert!(!is_e(&[0u64; 16]));
}

#[test]
fn assigning_copies_every_entry() {
    let source = matrix([1.5, -2.0, 3.0, 4.0, 5.0, 6.0, 7.0, 8.0, 9.0, 10.0, 11.0, 12.0, 13.0, 14.0, 15.0, f64::NAN]);
    let mut target = identity();
    assign_m(&mut target, &source);
    assert_eq!(target, source);
}

#[test]
fn a_product_with_the_identity_is_the_other_operand_bit_for_bit() {
    let odd = matrix([0.1, -0.0, 3.0, 1e-310, f64::NAN, 6.0, 7.0, f64::INFINITY, 9.0, 10.0, 0.3, 12.0, 13.0, 14.0, 15.0, 1.0000000000000002]);
    let e = identity();
    let mut out = [7u64; 16];
    assert!(multiply_identity(&e, &odd, &mut out));
    assert_eq!(out, odd);
    let mut out = [7u64; 16];
    assert!(multiply_identity(&odd, &e, &mut out));
    assert_eq!(out, odd);
}

#[test]
fn a_product_of_identities_is_the_right_one() {
    let mut left = identity();
    left[3] = (-0.0f64).to_bits();
    let mut right = identity();
    right[7] = (-0.0f64).to_bits();
    let mut out = [7u64; 16];
    assert!(multiply_identity(&left, &right, &mut out));
    assert_eq!(out, right);
}

#[test]
fn a_product_of_two_other_matrices_is_left_to_the_caller() {
    let mut a = identity();
    a[12] = 5.0f64.to_bits();
    let mut b = identity();
    b[0] = 2.0f64.to_bits();
    let mut out = [7u64; 16];
    assert!(!multiply_identity(&a, &b, &mut out));
    assert_eq!(out, [7u64; 16]);
}

#[test]
fn a_box_stays_upright_without_turn_shear_or_foreshortening() {
    let one = 1.0f64.to_bits();
    let mut m = identity();
    m[0] = 2.0f64.to_bits();
    m[5] = 3.0f64.to_bits();
    m[12] = 40.0f64.to_bits();
    m[13] = 50.0f64.to_bits();
    m[14] = 60.0f64.to_bits();
    m[9] = 0.5f64.to_bits();
    m[3] = 0.25f64.to_bits();
    assert!(is_upright(&m, one, one));
    assert!(!is_upright(&m, 0.5f64.to_bits(), one));
    assert!(!is_upright(&m, one, 1.0000000000000002f64.to_bits()));
    for i in [1usize, 2, 4, 6, 7, 8] {
        let mut turned = m;
        turned[i] = 5e-324f64.to_bits();
        assert!(!is_upright(&turned, one, one));
        turned[i] = (-0.0f64).to_bits();
        assert!(is_upright(&turned, one, one));
    }
}

#[test]
fn an_axis_along_a_coordinate_is_told() {
    let a = |x: f64, y: f64, z: f64| axis(x.to_bits(), y.to_bits(), z.to_bits());
    assert_eq!(a(1.0, 0.0, 0.0), Axis::X { flipped: false });
    assert_eq!(a(-0.5, 0.0, -0.0), Axis::X { flipped: true });
    assert_eq!(a(0.0, 3.0, 0.0), Axis::Y { flipped: false });
    assert_eq!(a(-0.0, -3.0, 0.0), Axis::Y { flipped: true });
    assert_eq!(a(0.0, 0.0, 1e-300), Axis::Z { flipped: false });
    assert_eq!(a(0.0, 0.0, -1e300), Axis::Z { flipped: true });
    assert_eq!(a(0.0, 0.0, 0.0), Axis::Free);
    assert_eq!(a(1.0, 1.0, 0.0), Axis::Free);
    assert_eq!(a(0.0, 1.0, 1.0), Axis::Free);
    assert_eq!(a(1.0, 2.0, 3.0), Axis::Free);
    assert_eq!(a(f64::NAN, 0.0, 0.0), Axis::X { flipped: false });
}
