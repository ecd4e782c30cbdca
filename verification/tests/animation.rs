use skelanim::clock::advance_clock;
use skelanim::composer::compose_pose;
use skelanim::fixed::FX_ONE;
use skelanim::linalg::Mat4;
use skelanim::mesh::AnimatedMesh;
use skelanim::quat::{Quat, Vec3};
use skelanim::sampler::sample_joint_local;
use skelanim::skeleton::{Joint, Keyframe, Skeleton, MAX_JOINTS};

fn fx(x: f64) -> i64 {
    (x * 65536.0).round() as i64
}

fn close(a: i64, b: i64, tol: i64) -> bool {
    (a - b).abs() <= tol
}

fn ident_quat() -> Quat {
    Quat { s: FX_ONE, x: 0, y: 0, z: 0 }
}

fn kf(t: i64, rotation: Quat, direction: Vec3, length: i64) -> Keyframe {
    Keyframe { timestamp: t, rotation, direction, length }
}

fn still_kf(t: i64) -> Keyframe {
    kf(t, ident_quat(), Vec3 { x: 0, y: 0, z: 0 }, 0)
}

#[test]
fn clock_advances_and_wraps() {
    assert_eq!(advance_clock(50, 100, 120), 30);
    assert_eq!(advance_clock(0, 120, 120), 0);
    // A delta larger than several periods wraps without drift.
    assert_eq!(advance_clock(7, 5 * 120 + 3, 120), 10);
    // A non-positive period leaves the cursor untouched.
    assert_eq!(advance_clock(50, 100, 0), 50);
}

#[test]
fn clock_wraparound_returns_to_start() {
    // Deltas summing to exactly one period bring the cursor back,
    // exactly.
    let period = FX_ONE;
    let start: i64 = 12345;
    let mut t = start;
    for d in [20000i64, 30000, 10000, 5536] {
        t = advance_clock(t, d, period);
    }
    assert_eq!(20000 + 30000 + 10000 + 5536, period);
    assert_eq!(t, start);
}

#[test]
fn stopped_mesh_keeps_its_cursor() {
    let joints = vec![Joint {
        parent: None,
        inv_bind: Mat4::identity(),
        keyframes: vec![still_kf(0), still_kf(FX_ONE)],
    }];
    let skeleton = Skeleton::from_joints(joints).unwrap();
    let mut mesh = AnimatedMesh::new(Vec::new(), Vec::new(), skeleton);
    mesh.advance_time(1000);
    assert_eq!(mesh.current_time, 0);
    mesh.running = true;
    mesh.advance_time(1000);
    assert_eq!(mesh.current_time, 1000);
}

#[test]
fn sampling_on_a_keyframe_returns_it_exactly() {
    // Three keyframes with distinct rotations: hitting the middle
    // timestamp returns its rotation unchanged.
    let q0 = Quat { s: fx(0.70710678), x: 0, y: fx(0.70710678), z: 0 };
    let q1 = Quat { s: fx(0.92387953), x: 0, y: fx(0.38268343), z: 0 };
    let dir = Vec3 { x: FX_ONE, y: 0, z: 0 };
    let j = Joint {
        parent: None,
        inv_bind: Mat4::identity(),
        keyframes: vec![
            kf(0, q0, dir, FX_ONE),
            kf(FX_ONE / 2, q1, dir, FX_ONE),
            kf(FX_ONE, ident_quat(), dir, FX_ONE),
        ],
    };
    let (rot0, _) = sample_joint_local(&j, 0);
    assert_eq!(rot0, q0);
    let (rot1, _) = sample_joint_local(&j, FX_ONE / 2);
    assert_eq!(rot1, q1);
    // The period itself wraps back onto the first keyframe.
    let (rotp, _) = sample_joint_local(&j, FX_ONE);
    assert_eq!(rotp, q0);
}

#[test]
fn sampling_before_the_first_keyframe_degrades_to_it() {
    // A clip starting after zero: a time in the gap before the first
    // keyframe falls in no open interval, so the sample degrades to
    // keyframe zero with a zero fraction rather than failing.
    let q0 = Quat { s: fx(0.70710678), x: 0, y: fx(0.70710678), z: 0 };
    let dir = Vec3 { x: FX_ONE, y: 0, z: 0 };
    let j = Joint {
        parent: None,
        inv_bind: Mat4::identity(),
        keyframes: vec![
            kf(FX_ONE / 4, q0, dir, 2 * FX_ONE),
            kf(FX_ONE, ident_quat(), dir, 2 * FX_ONE),
        ],
    };
    let (rot, trans) = sample_joint_local(&j, FX_ONE / 8);
    assert_eq!(rot, q0);
    // Translation: the unchanged direction scaled by the first length.
    assert_eq!(trans, Vec3 { x: 2 * FX_ONE, y: 0, z: 0 });
}

#[test]
fn interior_sample_blends_the_lengths() {
    // Identical rotations and directions, lengths 1 and 3: a quarter
    // of the way in, the blended length is 1.5, exactly.
    let dir = Vec3 { x: 0, y: FX_ONE, z: 0 };
    let j = Joint {
        parent: None,
        inv_bind: Mat4::identity(),
        keyframes: vec![
            kf(0, ident_quat(), dir, FX_ONE),
            kf(FX_ONE, ident_quat(), dir, 3 * FX_ONE),
        ],
    };
    let (_, trans) = sample_joint_local(&j, FX_ONE / 4);
    assert_eq!(trans, Vec3 { x: 0, y: FX_ONE * 3 / 2, z: 0 });
}

#[test]
fn single_root_identity_pose_is_the_bind_pose_transposed() {
    let inv_bind = Mat4 {
        m00: fx(1.0),
        m01: fx(0.25),
        m02: 0,
        m03: fx(3.0),
        m10: 0,
        m11: fx(1.0),
        m12: fx(-0.5),
        m13: fx(-1.0),
        m20: 0,
        m21: 0,
        m22: fx(1.0),
        m23: fx(2.0),
        m30: 0,
        m31: 0,
        m32: 0,
        m33: FX_ONE,
    };
    let joints = vec![Joint {
        parent: None,
        inv_bind,
        keyframes: vec![still_kf(0), still_kf(FX_ONE)],
    }];
    let skeleton = Skeleton::from_joints(joints).unwrap();
    let locals = vec![Mat4::identity()];
    let pose = compose_pose(&skeleton, &locals);
    assert_eq!(pose.len(), MAX_JOINTS);
    assert_eq!(pose[0], inv_bind.transpose());
    for slot in pose.iter().skip(1) {
        assert_eq!(*slot, Mat4::identity());
    }
}

#[test]
fn chain_composes_parent_before_child() {
    // root -> a -> b with pure translations: the world transform of b
    // accumulates all three, root first, then the inverse bind pose,
    // transposed.
    let lr = Mat4::translation(&Vec3 { x: FX_ONE, y: 0, z: 0 });
    let la = Mat4::translation(&Vec3 { x: 0, y: FX_ONE, z: 0 });
    let lb = Mat4::translation(&Vec3 { x: 0, y: 0, z: FX_ONE });
    let joints = vec![
        Joint { parent: None, inv_bind: Mat4::identity(), keyframes: vec![still_kf(0), still_kf(FX_ONE)] },
        Joint { parent: Some(0), inv_bind: Mat4::identity(), keyframes: vec![still_kf(0), still_kf(FX_ONE)] },
        Joint { parent: Some(1), inv_bind: Mat4::identity(), keyframes: vec![still_kf(0), still_kf(FX_ONE)] },
    ];
    let skeleton = Skeleton::from_joints(joints).unwrap();
    let locals = vec![lr, la, lb];
    let pose = compose_pose(&skeleton, &locals);
    let expected = lr.mul_mat(&la.mul_mat(&lb)).mul_mat(&Mat4::identity()).transpose();
    assert_eq!(pose[2], expected);
    // The translations stack to (1, 1, 1), sitting in the transposed
    // bottom row.
    assert_eq!(pose[2].m30, FX_ONE);
    assert_eq!(pose[2].m31, FX_ONE);
    assert_eq!(pose[2].m32, FX_ONE);
}

#[test]
fn two_joint_scenario_samples_the_midpoint() {
    // Root: identity rotation, zero translation at t=0 and t=1.
    // Child: 90 degrees about y at t=0 to 180 degrees at t=1, length
    // one, direction swinging a quarter turn. Sampling at t=0.5 gives
    // the 135-degree rotation and the renormalised bisector direction.
    let q90 = Quat { s: fx(0.70710678), x: 0, y: fx(0.70710678), z: 0 };
    let q180 = Quat { s: 0, x: 0, y: FX_ONE, z: 0 };
    let d0 = Vec3 { x: FX_ONE, y: 0, z: 0 };
    let d1 = Vec3 { x: 0, y: 0, z: -FX_ONE };
    let joints = vec![
        Joint {
            parent: None,
            inv_bind: Mat4::identity(),
            keyframes: vec![still_kf(0), still_kf(FX_ONE)],
        },
        Joint {
            parent: Some(0),
            inv_bind: Mat4::identity(),
            keyframes: vec![kf(0, q90, d0, FX_ONE), kf(FX_ONE, q180, d1, FX_ONE)],
        },
    ];
    let skeleton = Skeleton::from_joints(joints).unwrap();
    let (rot, trans) = sample_joint_local(&skeleton.joints[1], FX_ONE / 2);
    assert!(close(rot.s, fx(0.38268343), 350), "s: {}", rot.s);
    assert!(close(rot.x, 0, 350));
    assert!(close(rot.y, fx(0.92387953), 350), "y: {}", rot.y);
    assert!(close(rot.z, 0, 350));
    assert!(close(trans.x, fx(0.70710678), 400), "x: {}", trans.x);
    assert!(close(trans.y, 0, 400));
    assert!(close(trans.z, fx(-0.70710678), 400), "z: {}", trans.z);
    // The renormalised direction keeps unit length.
    let len2 = (trans.x as f64).powi(2) + (trans.y as f64).powi(2) + (trans.z as f64).powi(2);
    let len = len2.sqrt() / 65536.0;
    assert!((len - 1.0).abs() < 0.01, "length: {len}");
}

#[test]
fn pose_refresh_writes_every_slot() {
    let q90 = Quat { s: fx(0.70710678), x: 0, y: fx(0.70710678), z: 0 };
    let d0 = Vec3 { x: FX_ONE, y: 0, z: 0 };
    let joints = vec![
        Joint {
            parent: None,
            inv_bind: Mat4::identity(),
            keyframes: vec![still_kf(0), still_kf(FX_ONE)],
        },
        Joint {
            parent: Some(0),
            inv_bind: Mat4::identity(),
            keyframes: vec![kf(0, q90, d0, FX_ONE), kf(FX_ONE, q90, d0, FX_ONE)],
        },
    ];
    let skeleton = Skeleton::from_joints(joints).unwrap();
    let mut mesh = AnimatedMesh::new(Vec::new(), Vec::new(), skeleton);
    mesh.calculate_current_pose();
    assert_eq!(mesh.current_pose.len(), MAX_JOINTS);
    // The root samples the identity rotation with zero translation, so
    // its pose is the identity, transposed: still the identity.
    assert_eq!(mesh.current_pose[0], Mat4::identity());
    // Unused slots stay identity.
    for slot in mesh.current_pose.iter().skip(2) {
        assert_eq!(*slot, Mat4::identity());
    }
    // The child's slot carries the 90-degree rotation: its transposed
    // rotation block swaps the off-diagonal signs.
    let child = mesh.current_pose[1];
    assert!(close(child.m00, 0, 200));
    assert!(close(child.m02, fx(-1.0), 200));
    assert!(close(child.m20, fx(1.0), 200));
    assert!(close(child.m22, 0, 200));
    // Its translation column, transposed into the bottom row.
    assert!(close(child.m30, FX_ONE, 400));
}
