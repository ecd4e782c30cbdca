use skelanim::fixed::FX_ONE;
use skelanim::linalg::Mat4;
use skelanim::quat::{Quat, Vec3};
use skelanim::skeleton::{AssetError, Joint, Keyframe, Skeleton, MAX_JOINTS};

fn kf(t: i64) -> Keyframe {
    Keyframe {
        timestamp: t,
        rotation: Quat { s: FX_ONE, x: 0, y: 0, z: 0 },
        direction: Vec3 { x: 0, y: 0, z: FX_ONE },
        length: 0,
    }
}

fn joint(parent: Option<usize>, stamps: &[i64]) -> Joint {
    Joint {
        parent,
        inv_bind: Mat4::identity(),
        keyframes: stamps.iter().map(|&t| kf(t)).collect(),
    }
}

#[test]
fn accepts_a_valid_forest() {
    let joints = vec![
        joint(None, &[0, FX_ONE]),
        joint(Some(0), &[0, FX_ONE]),
        joint(Some(1), &[0, FX_ONE / 2, FX_ONE]),
        joint(None, &[0, FX_ONE]),
        joint(Some(3), &[0, FX_ONE]),
    ];
    let s = Skeleton::from_joints(joints).unwrap();
    assert_eq!(s.joints.len(), 5);
    assert_eq!(s.depths, vec![0, 1, 2, 0, 1]);
}

#[test]
fn parent_after_child_is_accepted() {
    // Insertion order is parent-before-or-after-child: a joint may
    // point at a later index.
    let joints = vec![joint(Some(1), &[0, FX_ONE]), joint(None, &[0, FX_ONE])];
    let s = Skeleton::from_joints(joints).unwrap();
    assert_eq!(s.depths, vec![1, 0]);
}

#[test]
fn rejects_too_many_joints() {
    let joints: Vec<Joint> = (0..MAX_JOINTS + 1).map(|_| joint(None, &[0, FX_ONE])).collect();
    assert_eq!(Skeleton::from_joints(joints).err(), Some(AssetError::TooManyJoints));
}

#[test]
fn accepts_the_full_joint_ceiling() {
    let joints: Vec<Joint> = (0..MAX_JOINTS).map(|_| joint(None, &[0, FX_ONE])).collect();
    assert!(Skeleton::from_joints(joints).is_ok());
}

#[test]
fn rejects_empty_keyframes() {
    let joints = vec![joint(None, &[])];
    assert_eq!(Skeleton::from_joints(joints).err(), Some(AssetError::NoKeyframes));
}

#[test]
fn rejects_unsorted_timestamps() {
    let joints = vec![joint(None, &[0, FX_ONE, FX_ONE])];
    assert_eq!(Skeleton::from_joints(joints).err(), Some(AssetError::TimestampsNotIncreasing));
}

#[test]
fn rejects_a_clip_without_a_period() {
    let joints = vec![joint(None, &[0])];
    assert_eq!(Skeleton::from_joints(joints).err(), Some(AssetError::NonPositivePeriod));
}

#[test]
fn rejects_out_of_range_components() {
    let mut j = joint(None, &[0, FX_ONE]);
    j.keyframes[0].rotation.s = i64::MAX;
    assert_eq!(Skeleton::from_joints(vec![j]).err(), Some(AssetError::ComponentOutOfRange));
}

#[test]
fn rejects_a_negative_timestamp() {
    let joints = vec![joint(None, &[-1, FX_ONE])];
    assert_eq!(Skeleton::from_joints(joints).err(), Some(AssetError::ComponentOutOfRange));
}

#[test]
fn rejects_a_parent_outside_the_array() {
    let joints = vec![joint(Some(7), &[0, FX_ONE])];
    assert_eq!(Skeleton::from_joints(joints).err(), Some(AssetError::BadParentIndex));
}

#[test]
fn rejects_a_parent_cycle() {
    let joints = vec![joint(Some(1), &[0, FX_ONE]), joint(Some(0), &[0, FX_ONE])];
    assert_eq!(Skeleton::from_joints(joints).err(), Some(AssetError::CyclicHierarchy));
}

#[test]
fn rejects_a_self_parent() {
    let joints = vec![joint(Some(0), &[0, FX_ONE])];
    assert_eq!(Skeleton::from_joints(joints).err(), Some(AssetError::CyclicHierarchy));
}
