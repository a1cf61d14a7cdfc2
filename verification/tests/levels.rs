use anim_core::node::node::level_of;
use anim_core::node::MatrixPlan;
use anim_core::math::matrix::Axis as Rotation;
use anim_core::node::Step;
use anim_core::node::Node;
use anim_core::animation::frame::Transition;
use anim_core::refresh::level;
use anim_core::style::key;
use anim_core::style::key::Axis;
use anim_core::style::unit;
use anim_core::style::unit::Basis;

#[test]
fn every_key_raises_its_bit() {
    let expected = [
        (key::TRANSLATE_X, level::TRANSLATE_X),
        (key::TRANSLATE_Y, level::TRANSLATE_Y),
        (key::TRANSLATE_Z, level::TRANSLATE_Z),
        (key::ROTATE_X, level::TRANSFORM),
        (key::ROTATE_Y, level::TRANSFORM),
        (key::ROTATE_Z, level::ROTATE_Z),
        (key::ROTATE_3D_X, level::NONE),
        (key::ROTATE_3D_Y, level::NONE),
        (key::ROTATE_3D_Z, level::NONE),
        (key::ROTATE_3D_A, level::NONE),
        (key::SCALE_X, level::SCALE_X),
        (key::SCALE_Y, level::SCALE_Y),
        (key::SCALE_Z, level::SCALE_Z),
        (key::SKEW_X, level::TRANSFORM),
        (key::SKEW_Y, level::TRANSFORM),
        (key::OPACITY, level::OPACITY),
        (key::TFO_X, level::TRANSFORM),
        (key::TFO_Y, level::TRANSFORM),
        (key::COUNT, level::NONE),
        (usize::MAX, level::NONE),
    ];
    for (k, lv) in expected {
        assert_eq!(level::level_of_key(k), lv);
    }
}

#[test]
fn group_levels_are_the_union_of_their_bits() {
    assert_eq!(level::TRANSLATE, level::TRANSLATE_X | level::TRANSLATE_Y | level::TRANSLATE_Z);
    assert_eq!(level::SCALE, level::SCALE_X | level::SCALE_Y | level::SCALE_Z);
    assert_eq!(
        level::TRANSFORM_ALL,
        level::TRANSLATE | level::ROTATE_Z | level::SCALE | level::TRANSFORM
    );
    assert!(level::has(level::TRANSFORM_ALL, level::ROTATE_Z));
    assert!(!level::has(level::TRANSFORM_ALL, level::OPACITY));
    assert!(!level::has(level::TRANSFORM_ALL, level::CACHE));
    assert!(!level::has(level::NONE, usize::MAX));
    assert!(level::has(level::REFLOW | level::MASK, level::MASK | level::FILTER));
}

#[test]
fn updates_raise_the_bits_of_all_their_keys() {
    let t = |k: usize| Transition { k, v: 0, u: 0, d: 0 };
    assert_eq!(level_of(&vec![]), level::NONE);
    assert_eq!(level_of(&vec![t(key::OPACITY)]), level::OPACITY);
    assert_eq!(
        level_of(&vec![t(key::TRANSLATE_X), t(key::SCALE_Y), t(key::TRANSLATE_X), t(key::ROTATE_3D_A)]),
        level::TRANSLATE_X | level::SCALE_Y
    );
    assert_eq!(
        level_of(&vec![t(key::SKEW_X), t(key::OPACITY), t(key::ROTATE_Z)]),
        level::TRANSFORM | level::OPACITY | level::ROTATE_Z
    );
}

fn style(pairs: &[(usize, f64)]) -> [u64; 18] {
    let mut s = [0u64; 18];
    s[key::SCALE_X] = 1.0f64.to_bits();
    s[key::SCALE_Y] = 1.0f64.to_bits();
    s[key::SCALE_Z] = 1.0f64.to_bits();
    for (k, v) in pairs {
        s[*k] = v.to_bits();
    }
    s
}

fn fast(bits: &[usize]) -> MatrixPlan {
    let has = |b: usize| bits.contains(&b);
    MatrixPlan::Fast {
        translate_x: has(level::TRANSLATE_X),
        translate_y: has(level::TRANSLATE_Y),
        translate_z: has(level::TRANSLATE_Z),
        rotate_z: has(level::ROTATE_Z),
        scale_x: has(level::SCALE_X),
        scale_y: has(level::SCALE_Y),
        scale_z: has(level::SCALE_Z),
    }
}

#[test]
fn component_changes_are_edited_in_place() {
    let plain = style(&[]);
    assert_eq!(Node::cal_matrix(level::NONE, &plain), fast(&[]));
    assert_eq!(Node::cal_matrix(level::TRANSLATE_X, &plain), fast(&[level::TRANSLATE_X]));
    assert_eq!(
        Node::cal_matrix(level::TRANSLATE | level::OPACITY, &plain),
        fast(&[level::TRANSLATE_X, level::TRANSLATE_Y, level::TRANSLATE_Z])
    );
    assert_eq!(
        Node::cal_matrix(level::ROTATE_Z | level::SCALE_Y, &plain),
        fast(&[level::ROTATE_Z, level::SCALE_Y])
    );
    assert_eq!(
        Node::cal_matrix(level::SCALE | level::MASK, &plain),
        fast(&[level::SCALE_X, level::SCALE_Y, level::SCALE_Z])
    );
}

#[test]
fn a_generic_change_or_a_repaint_forces_a_rebuild() {
    let plain = style(&[]);
    assert_eq!(Node::cal_matrix(level::TRANSFORM, &plain), MatrixPlan::Full);
    assert_eq!(Node::cal_matrix(level::TRANSFORM | level::TRANSLATE_X, &plain), MatrixPlan::Full);
    assert_eq!(Node::cal_matrix(level::REPAINT, &plain), MatrixPlan::Full);
    assert_eq!(Node::cal_matrix(level::REFLOW, &plain), MatrixPlan::Full);
    assert_eq!(Node::cal_matrix(level::REBUILD | level::TRANSLATE_Y, &plain), MatrixPlan::Full);
    assert_eq!(Node::cal_matrix(level::REPAINT - 1, &plain), MatrixPlan::Full);
    assert_eq!(
        Node::cal_matrix(level::MASK | level::PERSPECTIVE | level::SCALE_X, &plain),
        fast(&[level::SCALE_X])
    );
}

#[test]
fn a_scale_leaving_zero_forces_a_rebuild() {
    for (k, bit) in [(key::SCALE_X, level::SCALE_X), (key::SCALE_Y, level::SCALE_Y), (key::SCALE_Z, level::SCALE_Z)] {
        let flat = style(&[(k, 0.0)]);
        assert_eq!(Node::cal_matrix(bit, &flat), MatrixPlan::Full);
        assert_eq!(Node::cal_matrix(bit, &style(&[(k, -0.0)])), MatrixPlan::Full);
        assert_eq!(Node::cal_matrix(level::TRANSLATE_X, &flat), fast(&[level::TRANSLATE_X]));
        assert_eq!(Node::cal_matrix(level::ROTATE_Z, &flat), fast(&[level::ROTATE_Z]));
        assert_eq!(Node::cal_matrix(bit, &style(&[(k, 0.5)])), fast(&[bit]));
    }
    let flat = style(&[(key::SCALE_X, 0.0)]);
    assert_eq!(Node::cal_matrix(level::SCALE_Y, &flat), fast(&[level::SCALE_Y]));
}

#[test]
fn turning_a_tilted_node_forces_a_rebuild() {
    for k in [key::ROTATE_X, key::ROTATE_Y, key::ROTATE_3D_A, key::SKEW_X, key::SKEW_Y] {
        let tilted = style(&[(k, 30.0)]);
        assert_eq!(Node::cal_matrix(level::ROTATE_Z, &tilted), MatrixPlan::Full);
        assert_eq!(Node::cal_matrix(level::ROTATE_Z | level::TRANSLATE_X, &tilted), MatrixPlan::Full);
        assert_eq!(Node::cal_matrix(level::TRANSLATE_X, &tilted), fast(&[level::TRANSLATE_X]));
        assert_eq!(Node::cal_matrix(level::SCALE_X, &tilted), fast(&[level::SCALE_X]));
    }
    let turned = style(&[(key::ROTATE_Z, 30.0), (key::ROTATE_3D_X, 1.0)]);
    assert_eq!(Node::cal_matrix(level::ROTATE_Z, &turned), fast(&[level::ROTATE_Z]));
}

#[test]
fn relative_units_have_their_basis() {
    let expected = [
        (unit::AUTO, Basis::Absolute),
        (unit::PX, Basis::Absolute),
        (unit::PERCENT, Basis::Reference),
        (unit::NUMBER, Basis::Absolute),
        (unit::INHERIT, Basis::Absolute),
        (unit::DEG, Basis::Absolute),
        (unit::STRING, Basis::Absolute),
        (unit::RGBA, Basis::Absolute),
        (unit::REM, Basis::RootFont),
        (unit::EM, Basis::Absolute),
        (unit::VW, Basis::ViewportWidth),
        (unit::VH, Basis::ViewportHeight),
        (unit::VMAX, Basis::ViewportMax),
        (unit::VMIN, Basis::ViewportMin),
        (14, Basis::Absolute),
    ];
    for (u, basis) in expected {
        assert_eq!(unit::basis_of(u), basis);
    }
}

#[test]
fn lengths_have_their_axis() {
    for k in 0..=key::COUNT {
        let axis = if k == key::TRANSLATE_X || k == key::TRANSLATE_Z || k == key::TFO_X {
            Axis::Width
        } else if k == key::TRANSLATE_Y || k == key::TFO_Y {
            Axis::Height
        } else {
            Axis::Unbound
        };
        assert_eq!(key::axis_of(k), axis);
    }
}

#[test]
fn a_rebuild_multiplies_the_effective_factors_in_order() {
    let translations = vec![Step::TranslateX, Step::TranslateY, Step::TranslateZ];
    assert_eq!(Node::rebuild_steps(&style(&[])), translations);
    assert_eq!(Node::rebuild_steps(&style(&[(key::TRANSLATE_X, 9.0), (key::OPACITY, 0.5)])), translations);
    let all = style(&[
        (key::SCALE_Z, 2.0),
        (key::SCALE_Y, 0.0),
        (key::SCALE_X, -1.0),
        (key::SKEW_Y, 1.0),
        (key::SKEW_X, 2.0),
        (key::ROTATE_3D_A, 45.0),
        (key::ROTATE_3D_Y, -1.0),
        (key::ROTATE_Z, 3.0),
        (key::ROTATE_Y, 4.0),
        (key::ROTATE_X, 5.0),
    ]);
    assert_eq!(
        Node::rebuild_steps(&all),
        vec![
            Step::TranslateX,
            Step::TranslateY,
            Step::TranslateZ,
            Step::RotateX,
            Step::RotateY,
            Step::RotateZ,
            Step::Rotate3d(Rotation::Y { flipped: true }),
            Step::SkewX,
            Step::SkewY,
            Step::ScaleX,
            Step::ScaleY,
            Step::ScaleZ,
        ]
    );
    let some = style(&[(key::ROTATE_Z, 90.0), (key::SCALE_Y, 2.0), (key::ROTATE_3D_A, 45.0)]);
    assert_eq!(
        Node::rebuild_steps(&some),
        vec![Step::TranslateX, Step::TranslateY, Step::TranslateZ, Step::RotateZ, Step::ScaleY]
    );
    let axis_only = style(&[(key::ROTATE_3D_X, 1.0), (key::ROTATE_3D_Z, 1.0)]);
    assert_eq!(Node::rebuild_steps(&axis_only), translations);
    let free = style(&[(key::ROTATE_3D_X, 1.0), (key::ROTATE_3D_Z, 1.0), (key::ROTATE_3D_A, -10.0)]);
    assert_eq!(
        Node::rebuild_steps(&free),
        vec![Step::TranslateX, Step::TranslateY, Step::TranslateZ, Step::Rotate3d(Rotation::Free)]
    );
}

#[test]
fn the_origin_is_kept_unless_it_is_zero_or_nothing_is_transformed() {
    let e = anim_core::math::matrix::identity();
    let mut m = e;
    m[0] = 2.0f64.to_bits();
    let (zero, minus_zero, ten) = (0.0f64.to_bits(), (-0.0f64).to_bits(), 10.0f64.to_bits());
    assert!(Node::keeps_origin(ten, zero, &m));
    assert!(Node::keeps_origin(zero, ten, &m));
    assert!(Node::keeps_origin(ten, ten, &m));
    assert!(!Node::keeps_origin(zero, minus_zero, &m));
    assert!(!Node::keeps_origin(ten, ten, &e));
    assert!(!Node::keeps_origin(zero, zero, &e));
}
