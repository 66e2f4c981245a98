use solar_renderer::fixed::{HALF, ONE};
use solar_renderer::transform::{create_model_matrix, create_viewport_matrix, EulerTrig};
use solar_renderer::vector::{Angle, Mat3, Mat4, Vec3, Vec4};

fn fx(v: f64) -> i32 {
    (v * 65536.0).round() as i32
}

fn close(a: i32, b: i32, tolerance: i32) -> bool {
    (a as i64 - b as i64).abs() <= tolerance as i64
}

const NO_TURN: Angle = Angle { sin: 0, cos: ONE };

#[test]
fn dot_product_is_rounded_once() {
    let a = Vec3::new(ONE, 2 * ONE, 3 * ONE);
    let b = Vec3::new(4 * ONE, -5 * ONE, HALF);
    assert_eq!(a.dot(&b), fx(4.0 - 10.0 + 1.5));
    assert_eq!(a.wide_dot(&b), (fx(-4.5) as i128) * (ONE as i128));
    // Three products of a third each sum to one third exactly, rounded once.
    let t = Vec3::new(fx(1.0 / 3.0), fx(1.0 / 3.0), fx(1.0 / 3.0));
    assert_eq!(t.dot(&Vec3::new(ONE, ONE, ONE)), 3 * fx(1.0 / 3.0));
    assert_eq!(Vec3::new(i32::MAX, i32::MAX, i32::MAX).dot(&Vec3::new(i32::MAX, 0, 0)), i32::MAX);
}

#[test]
fn sum_and_difference_of_vectors() {
    let a = Vec3::new(ONE, i32::MAX, i32::MIN);
    let b = Vec3::new(ONE, 1, -1);
    assert_eq!(a.plus(&b), Vec3::new(2 * ONE, i32::MAX, i32::MIN));
    assert_eq!(a.minus(&b), Vec3::new(0, i32::MAX - 1, i32::MIN + 1));
    assert_eq!(Vec3::zeros(), Vec3::new(0, 0, 0));
}

#[test]
fn length_is_rounded_down() {
    assert_eq!(Vec3::new(3 * ONE, 4 * ONE, 0).length(), 5 * ONE as u32);
    assert_eq!(Vec3::new(0, 0, 0).length(), 0);
    assert_eq!(Vec3::new(ONE, ONE, 0).length(), 92681);
}

#[test]
fn normalize_gives_unit_length() {
    assert_eq!(Vec3::new(0, 0, 5 * ONE).normalize(), Vec3::new(0, 0, ONE));
    assert_eq!(Vec3::new(-7 * ONE, 0, 0).normalize(), Vec3::new(-ONE, 0, 0));
    // 0.6 and 0.8 are no scalars: both are rounded down.
    assert_eq!(Vec3::new(3 * ONE, 4 * ONE, 0).normalize(), Vec3::new(39321, 52428, 0));
    let v = Vec3::new(fx(12.5), fx(-3.25), fx(7.0)).normalize();
    let len = v.length() as i32;
    assert!(close(len, ONE, 4));
    for c in [v.x, v.y, v.z] {
        assert!(-ONE <= c && c <= ONE);
    }
    let big = Vec3::new(i32::MAX, i32::MIN, i32::MAX).normalize();
    assert!(close(big.x, fx(0.57735), 2) && close(big.y, fx(-0.57735), 2));
}

#[test]
fn zero_vector_stays_zero_when_normalized() {
    assert_eq!(Vec3::new(0, 0, 0).normalize(), Vec3::new(0, 0, 0));
}

#[test]
fn identity_leaves_vectors_and_matrices() {
    let v = Vec4::new(fx(1.5), fx(-2.0), fx(0.25), ONE);
    assert_eq!(Mat4::identity().transform(&v), v);
    let m = create_model_matrix(
        &Vec3::new(fx(3.0), fx(4.0), fx(5.0)),
        fx(0.5),
        &EulerTrig { x: NO_TURN, y: NO_TURN, z: NO_TURN },
    );
    assert_eq!(Mat4::identity().times(&m), m);
    assert_eq!(m.times(&Mat4::identity()), m);
    let w = Vec3::new(fx(1.5), fx(-2.0), fx(0.25));
    assert_eq!(Mat3::identity().transform(&w), w);
}

#[test]
fn matrix_product_applies_the_right_factor_first() {
    let t = Mat4::translation(&Vec3::new(fx(10.0), 0, 0));
    let s = Mat4::scaling(fx(2.0));
    let p = Vec4::new(ONE, ONE, ONE, ONE);
    assert_eq!(t.times(&s).transform(&p), Vec4::new(fx(12.0), fx(2.0), fx(2.0), ONE));
    assert_eq!(s.times(&t).transform(&p), Vec4::new(fx(22.0), fx(2.0), fx(2.0), ONE));
    assert_eq!(t.times(&s).transform(&p), t.transform(&s.transform(&p)));
}

#[test]
fn rotations_turn_the_axes() {
    let quarter = Angle { sin: ONE, cos: 0 };
    let x = Vec4::new(ONE, 0, 0, ONE);
    let y = Vec4::new(0, ONE, 0, ONE);
    let z = Vec4::new(0, 0, ONE, ONE);
    assert_eq!(Mat4::rotation_z(&quarter).transform(&x), y);
    assert_eq!(Mat4::rotation_x(&quarter).transform(&y), z);
    assert_eq!(Mat4::rotation_y(&quarter).transform(&z), x);
    assert_eq!(Mat4::rotation_y(&quarter).transform(&x), Vec4::new(0, 0, -ONE, ONE));
}

#[test]
fn model_matrix_rotates_then_scales_then_moves() {
    let quarter = Angle { sin: ONE, cos: 0 };
    let m = create_model_matrix(
        &Vec3::new(fx(1.0), fx(2.0), fx(3.0)),
        fx(2.0),
        &EulerTrig { x: NO_TURN, y: NO_TURN, z: quarter },
    );
    let p = Vec4::new(ONE, 0, 0, ONE);
    assert_eq!(m.transform(&p), Vec4::new(fx(1.0), fx(4.0), fx(3.0), ONE));
    assert_eq!(m.linear_part().r0, Vec3::new(0, fx(-2.0), 0));
}

#[test]
fn viewport_maps_the_unit_square_to_the_screen() {
    let m = create_viewport_matrix(fx(800.0), fx(600.0));
    assert_eq!(
        m.transform(&Vec4::new(-ONE, ONE, HALF, ONE)),
        Vec4::new(0, 0, HALF, ONE)
    );
    assert_eq!(
        m.transform(&Vec4::new(ONE, -ONE, 0, ONE)),
        Vec4::new(fx(800.0), fx(600.0), 0, ONE)
    );
    assert_eq!(
        m.transform(&Vec4::new(0, 0, 0, ONE)),
        Vec4::new(fx(400.0), fx(300.0), 0, ONE)
    );
    assert_eq!(create_viewport_matrix(3, 3).r1.y, -2);
    assert_eq!(create_viewport_matrix(3, 3).r1.w, 1);
}

#[test]
fn inverse_of_identity_and_of_a_scaling() {
    assert_eq!(Mat3::identity().try_inverse(), Some(Mat3::identity()));
    let s = Mat4::scaling(fx(0.5)).linear_part();
    let inv = s.try_inverse().unwrap();
    assert_eq!(inv, Mat4::scaling(fx(2.0)).linear_part());
    let small = Mat4::scaling(fx(0.05)).linear_part().try_inverse().unwrap();
    assert!(close(small.r0.x, fx(20.0), 300));
    assert_eq!(small.r0.y, 0);
}

#[test]
fn inverse_undoes_a_general_matrix() {
    let m = Mat3 {
        r0: Vec3::new(fx(2.0), fx(1.0), fx(0.0)),
        r1: Vec3::new(fx(0.0), fx(1.0), fx(3.0)),
        r2: Vec3::new(fx(1.0), fx(0.0), fx(1.0)),
    };
    let inv = m.try_inverse().unwrap();
    let v = Vec3::new(fx(1.0), fx(-2.0), fx(0.5));
    let back = inv.transform(&m.transform(&v));
    assert!(close(back.x, v.x, 8) && close(back.y, v.y, 8) && close(back.z, v.z, 8));
    // det = 2 * (1 - 0) - 1 * (0 - 3) + 0 = 5
    assert!(close(inv.r0.x, fx(1.0 / 5.0), 1));
    assert!(close(inv.r0.y, fx(-1.0 / 5.0), 1));
    assert!(close(inv.r0.z, fx(3.0 / 5.0), 1));
    assert!(close(inv.r2.z, fx(2.0 / 5.0), 1));
}

#[test]
fn singular_matrix_has_no_inverse() {
    let m = Mat3 {
        r0: Vec3::new(ONE, 2 * ONE, 3 * ONE),
        r1: Vec3::new(2 * ONE, 4 * ONE, 6 * ONE),
        r2: Vec3::new(0, ONE, 0),
    };
    assert_eq!(m.try_inverse(), None);
    assert_eq!(Mat4::scaling(0).linear_part().try_inverse(), None);
}

#[test]
fn transpose_exchanges_rows_and_columns() {
    let m = Mat3 {
        r0: Vec3::new(1, 2, 3),
        r1: Vec3::new(4, 5, 6),
        r2: Vec3::new(7, 8, 9),
    };
    let t = m.transpose();
    assert_eq!(t.r0, Vec3::new(1, 4, 7));
    assert_eq!(t.r1, Vec3::new(2, 5, 8));
    assert_eq!(t.r2, Vec3::new(3, 6, 9));
    assert_eq!(t.transpose(), m);
}
