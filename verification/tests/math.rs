use skelanim::fixed::{fx_div, fx_mul, fx_sqrt, isqrt_u64, FX_ONE};
use skelanim::interp::{from_arc, rotate_toward, slerp};
use skelanim::linalg::Mat4;
use skelanim::quat::{Quat, Vec3};
use skelanim::trig::{acos_fx, cos_fx, sin_fx, HALF_PI_FX, PI_FX};

fn fx(x: f64) -> i64 {
    (x * 65536.0).round() as i64
}

fn close(a: i64, b: i64, tol: i64) -> bool {
    (a - b).abs() <= tol
}

#[test]
fn fixed_multiply_exact() {
    // 1.5 * 2.0 == 3.0, exactly representable.
    assert_eq!(fx_mul(98304, 131072), 196608);
    // Signed: -1.5 * 2.0 == -3.0.
    assert_eq!(fx_mul(-98304, 131072), -196608);
    // Flooring: 1/65536 * 1/65536 floors to 0 or below.
    assert_eq!(fx_mul(1, 1), 0);
    assert_eq!(fx_mul(-1, 1), -1);
}

#[test]
fn fixed_divide_exact() {
    assert_eq!(fx_div(196608, 131072), 98304);
    // A non-positive divisor yields zero by definition.
    assert_eq!(fx_div(196608, 0), 0);
    assert_eq!(fx_div(196608, -5), 0);
}

#[test]
fn integer_square_roots() {
    assert_eq!(isqrt_u64(0), 0);
    assert_eq!(isqrt_u64(15), 3);
    assert_eq!(isqrt_u64(16), 4);
    assert_eq!(isqrt_u64(u64::MAX), 4294967295);
    // sqrt(4.0) == 2.0 in the fixed scale.
    assert_eq!(fx_sqrt(4 * FX_ONE), 2 * FX_ONE);
    // sqrt of a negative argument is defined as zero.
    assert_eq!(fx_sqrt(-5), 0);
}

#[test]
fn matrix_identity_multiplication() {
    let m = Mat4 {
        m00: fx(1.25),
        m01: fx(-0.5),
        m02: fx(3.0),
        m03: fx(7.5),
        m10: fx(0.125),
        m11: fx(2.0),
        m12: fx(-1.0),
        m13: fx(0.25),
        m20: fx(4.0),
        m21: fx(0.5),
        m22: fx(1.0),
        m23: fx(-2.0),
        m30: 0,
        m31: 0,
        m32: 0,
        m33: FX_ONE,
    };
    let id = Mat4::identity();
    assert_eq!(id.mul_mat(&m), m);
    assert_eq!(m.mul_mat(&id), m);
    assert_eq!(m.transpose().transpose(), m);
}

#[test]
fn matrix_translation_composition() {
    let a = Mat4::translation(&Vec3 { x: FX_ONE, y: 0, z: 0 });
    let b = Mat4::translation(&Vec3 { x: 0, y: 2 * FX_ONE, z: 0 });
    let c = a.mul_mat(&b);
    assert_eq!(c.m03, FX_ONE);
    assert_eq!(c.m13, 2 * FX_ONE);
    assert_eq!(c.m23, 0);
    assert_eq!(c.m00, FX_ONE);
}

#[test]
fn sine_and_cosine_accuracy() {
    for k in 0..33 {
        let x = (PI_FX as i64) * k / 32;
        let xf = (x as f64) / 65536.0;
        assert!(
            close(sin_fx(x), fx(xf.sin()), 40),
            "sin at {x}: {} vs {}",
            sin_fx(x),
            fx(xf.sin())
        );
        assert!(
            close(cos_fx(x), fx(xf.cos()), 40),
            "cos at {x}: {} vs {}",
            cos_fx(x),
            fx(xf.cos())
        );
    }
    assert_eq!(sin_fx(0), 0);
    assert!(close(sin_fx(HALF_PI_FX), FX_ONE, 40));
}

#[test]
fn arccosine_accuracy() {
    for k in -8i64..9 {
        let x = k * FX_ONE / 8;
        let xf = (x as f64) / 65536.0;
        assert!(
            close(acos_fx(x), fx(xf.acos()), 120),
            "acos at {x}: {} vs {}",
            acos_fx(x),
            fx(xf.acos())
        );
    }
}

#[test]
fn slerp_boundaries_are_exact() {
    let q0 = Quat { s: fx(0.7071), x: 0, y: fx(0.7071), z: 0 };
    let q1 = Quat { s: 0, x: 0, y: FX_ONE, z: 0 };
    assert_eq!(slerp(&q0, &q1, 0), q0);
    assert_eq!(slerp(&q0, &q1, -5), q0);
    assert_eq!(slerp(&q0, &q1, FX_ONE), q1);
    assert_eq!(slerp(&q0, &q1, 2 * FX_ONE), q1);
}

#[test]
fn slerp_midpoint_bisects() {
    // 90 degrees about y to 180 degrees about y: the midpoint is the
    // 135-degree rotation.
    let q90 = Quat { s: fx(0.70710678), x: 0, y: fx(0.70710678), z: 0 };
    let q180 = Quat { s: 0, x: 0, y: FX_ONE, z: 0 };
    let mid = slerp(&q90, &q180, FX_ONE / 2);
    assert!(close(mid.s, fx(0.38268343), 350), "s: {}", mid.s);
    assert!(close(mid.x, 0, 350));
    assert!(close(mid.y, fx(0.92387953), 350), "y: {}", mid.y);
    assert!(close(mid.z, 0, 350));
}

#[test]
fn from_arc_maps_source_onto_target() {
    let xhat = Vec3 { x: FX_ONE, y: 0, z: 0 };
    let mz = Vec3 { x: 0, y: 0, z: -FX_ONE };
    let q = from_arc(&xhat, &mz);
    let moved = q.rotate(&xhat);
    assert!(close(moved.x, 0, 200));
    assert!(close(moved.y, 0, 200));
    assert!(close(moved.z, -FX_ONE, 200));
    // Parallel directions: the identity rotation, exactly.
    let qi = from_arc(&xhat, &xhat);
    assert_eq!(qi, Quat { s: FX_ONE, x: 0, y: 0, z: 0 });
}

#[test]
fn rotate_toward_walks_the_bisector() {
    let xhat = Vec3 { x: FX_ONE, y: 0, z: 0 };
    let mz = Vec3 { x: 0, y: 0, z: -FX_ONE };
    let half = rotate_toward(&xhat, &mz, FX_ONE / 2);
    assert!(close(half.x, fx(0.70710678), 400), "x: {}", half.x);
    assert!(close(half.y, 0, 400));
    assert!(close(half.z, fx(-0.70710678), 400), "z: {}", half.z);
    // At fraction zero the source direction is returned exactly.
    let same = rotate_toward(&xhat, &mz, 0);
    assert_eq!(same, xhat);
}
