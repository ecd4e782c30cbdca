//! The skeleton model: joints, keyframes, and import-time validation.
//!
//! A joint holds its parent link, its inverse bind pose and a non-empty
//! keyframe list with strictly increasing timestamps whose last entry is
//! the clip period. A skeleton is at most `MAX_JOINTS` joints whose
//! parent links form a forest; validation computes each joint's depth to
//! its root, and that depth assignment is what later lets the pose
//! composer walk parent chains with a termination argument.

use vstd::prelude::*;

verus! {

use crate::linalg::{mat_wf, Mat4, MAT_LIM};
use crate::quat::{quat_wf, vec_wf, Quat, Vec3};

/// The fixed ceiling on joints per skeleton.
pub const MAX_JOINTS: usize = 64;

/// Why an imported asset was rejected.
#[derive(Clone, Copy, Debug, PartialEq, Eq, Structural)]
pub enum AssetError {
    /// More joints than the fixed pose-array ceiling.
    TooManyJoints,
    /// A joint with an empty keyframe list.
    NoKeyframes,
    /// Keyframe timestamps that fail to increase strictly from a
    /// non-negative start.
    TimestampsNotIncreasing,
    /// A clip whose last timestamp is not positive, leaving no period
    /// to wrap over.
    NonPositivePeriod,
    /// A component outside the representable fixed-point range.
    ComponentOutOfRange,
    /// A parent index pointing outside the joint array.
    BadParentIndex,
    /// A parent relation that never reaches a root.
    CyclicHierarchy,
    /// A vertex attribute index pointing outside its table.
    IndexOutOfRange,
    /// Sample times and sample poses of different lengths.
    MismatchedSamples,
    /// More vertices than an index buffer entry can address.
    TooManyVertices,
}

/// One timestamped sample of a joint's local pose: a rotation, a unit
/// translation direction, and the translation's length.
#[derive(Clone, Copy, Debug, PartialEq, Eq, Structural)]
pub struct Keyframe {
    pub timestamp: i64,
    pub rotation: Quat,
    pub direction: Vec3,
    pub length: i64,
}

/// One node of the skeleton.
#[derive(Clone, Debug)]
pub struct Joint {
    /// The parent's index, or `None` at a root.
    pub parent: Option<usize>,
    /// The inverse bind pose, fixed at load time.
    pub inv_bind: Mat4,
    /// The keyframes, ordered by strictly increasing timestamp.
    pub keyframes: Vec<Keyframe>,
}

/// An ordered joint array together with each joint's depth to its root.
#[derive(Clone, Debug)]
pub struct Skeleton {
    pub joints: Vec<Joint>,
    pub depths: Vec<usize>,
}

/// All components of one keyframe within range, the timestamp
/// non-negative and the length non-negative.
pub open spec fn kf_wf(k: Keyframe) -> bool {
    &&& 0 <= k.timestamp <= MAT_LIM as int
    &&& quat_wf(k.rotation@)
    &&& vec_wf(k.direction@)
    &&& 0 <= k.length <= MAT_LIM as int
}

/// A well-formed joint: a non-empty keyframe list of in-range samples,
/// strictly increasing timestamps, a positive period, and an in-range
/// inverse bind pose.
pub open spec fn joint_wf(j: Joint) -> bool {
    &&& j.keyframes.len() >= 1
    &&& forall|i: int| 0 <= i < j.keyframes.len() ==> kf_wf(#[trigger] j.keyframes[i])
    &&& forall|i: int|
        0 <= i < j.keyframes.len() - 1 ==> #[trigger] j.keyframes[i].timestamp
            < j.keyframes[i + 1].timestamp
    &&& j.keyframes[j.keyframes.len() - 1].timestamp > 0
    &&& mat_wf(j.inv_bind@)
}

/// The clip period of a joint: its last timestamp.
pub open spec fn period_of(j: Joint) -> int {
    j.keyframes[j.keyframes.len() - 1].timestamp as int
}

/// Every joint well-formed.
pub open spec fn joints_wf(joints: Seq<Joint>) -> bool {
    forall|i: int| 0 <= i < joints.len() ==> joint_wf(#[trigger] joints[i])
}

/// Every parent index inside the array.
pub open spec fn parents_in_range(joints: Seq<Joint>) -> bool {
    forall|i: int|
        0 <= i < joints.len() ==> match #[trigger] joints[i].parent {
            Option::Some(p) => p < joints.len(),
            Option::None => true,
        }
}

/// The number of steps from joint `i` to its root, following parent
/// links with bounded fuel; `None` when a link leaves the array or the
/// fuel runs out before a root is reached.
pub open spec fn chain_depth(joints: Seq<Joint>, i: int, fuel: nat) -> Option<nat>
    decreases fuel,
{
    if !(0 <= i < joints.len()) {
        Option::None
    } else {
        match joints[i].parent {
            Option::None => Option::Some(0),
            Option::Some(p) => if fuel == 0 {
                Option::None
            } else {
                match chain_depth(joints, p as int, (fuel - 1) as nat) {
                    Option::None => Option::None,
                    Option::Some(d) => Option::Some((d + 1) as nat),
                }
            },
        }
    }
}

/// Every parent chain reaches a root within the joint count.
pub open spec fn hierarchy_ok(joints: Seq<Joint>) -> bool {
    forall|i: int|
        0 <= i < joints.len() ==> (#[trigger] chain_depth(joints, i, joints.len() as nat))
            is Some
}

/// A fully valid skeleton: joint count within the ceiling, every joint
/// well-formed, and a depth array consistent with the parent relation —
/// roots at depth zero, every other joint one deeper than its parent.
pub open spec fn skel_wf(s: Skeleton) -> bool {
    &&& s.joints.len() <= MAX_JOINTS
    &&& s.depths.len() == s.joints.len()
    &&& joints_wf(s.joints@)
    &&& forall|i: int|
        0 <= i < s.joints.len() ==> match #[trigger] s.joints[i].parent {
            Option::None => s.depths[i] == 0,
            Option::Some(p) => p < s.joints.len() && s.depths[i] == s.depths[p as int] + 1,
        }
}

/// A successful chain walk stays successful, with the same depth, under
/// more fuel.
pub proof fn lemma_chain_depth_fuel(joints: Seq<Joint>, i: int, fuel: nat, more: nat)
    requires
        chain_depth(joints, i, fuel) is Some,
        fuel <= more,
    ensures
        chain_depth(joints, i, more) == chain_depth(joints, i, fuel),
    decreases fuel,
{
    if 0 <= i < joints.len() {
        match joints[i].parent {
            Option::None => {},
            Option::Some(p) => {
                if fuel > 0 {
                    lemma_chain_depth_fuel(joints, p as int, (fuel - 1) as nat, (more - 1) as nat);
                }
            },
        }
    }
}

/// The walk behind `chain_depth`, one recursive step per parent link.
fn walk_depth(joints: &Vec<Joint>, i: usize, fuel: u32) -> (r: Option<u32>)
    requires
        i < joints.len(),
        joints.len() <= MAX_JOINTS,
        fuel <= MAX_JOINTS as u32,
    ensures
        match r {
            Option::Some(d) => chain_depth(joints@, i as int, fuel as nat)
                == Option::Some(d as nat) && d <= fuel,
            Option::None => chain_depth(joints@, i as int, fuel as nat) is None,
        },
    decreases fuel,
{
    match joints[i].parent {
        Option::None => {
            proof {
                assert(chain_depth(joints@, i as int, fuel as nat) == Option::Some(0nat));
            }
            Option::Some(0)
        },
        Option::Some(p) => {
            if p >= joints.len() || fuel == 0 {
                proof {
                    reveal_with_fuel(chain_depth, 2);
                    assert(chain_depth(joints@, i as int, fuel as nat) is None);
                }
                Option::None
            } else {
                let sub = walk_depth(joints, p, fuel - 1);
                match sub {
                    Option::None => {
                        proof {
                            assert(chain_depth(joints@, i as int, fuel as nat) is None);
                        }
                        Option::None
                    },
                    Option::Some(d) => {
                        proof {
                            assert(chain_depth(joints@, i as int, fuel as nat)
                                == Option::Some((d + 1) as nat));
                        }
                        Option::Some(d + 1)
                    },
                }
            }
        },
    }
}

/// Is one keyframe within range?
fn check_kf(k: &Keyframe) -> (r: bool)
    ensures
        r == kf_wf(*k),
{
    0 <= k.timestamp && k.timestamp <= MAT_LIM && k.rotation.is_wf() && k.direction.is_wf()
        && 0 <= k.length && k.length <= MAT_LIM
}

/// The first failed check among a joint's local conditions, if any.
fn check_joint(j: &Joint) -> (r: Option<AssetError>)
    ensures
        r is None <==> joint_wf(*j),
        r matches Some(e) ==> (e == AssetError::NoKeyframes
            || e == AssetError::ComponentOutOfRange || e == AssetError::TimestampsNotIncreasing
            || e == AssetError::NonPositivePeriod),
{
    if j.keyframes.len() == 0 {
        return Option::Some(AssetError::NoKeyframes);
    }
    let n = j.keyframes.len();
    for i in 0..n
        invariant
            n == j.keyframes.len(),
            forall|k: int| 0 <= k < i ==> kf_wf(#[trigger] j.keyframes[k]),
    {
        if !check_kf(&j.keyframes[i]) {
            return Option::Some(AssetError::ComponentOutOfRange);
        }
    }
    for i in 0..n - 1
        invariant
            n == j.keyframes.len(),
            n >= 1,
            forall|k: int| 0 <= k < j.keyframes.len() ==> kf_wf(#[trigger] j.keyframes[k]),
            forall|k: int|
                0 <= k < i ==> #[trigger] j.keyframes[k].timestamp < j.keyframes[k + 1].timestamp,
    {
        if j.keyframes[i].timestamp >= j.keyframes[i + 1].timestamp {
            return Option::Some(AssetError::TimestampsNotIncreasing);
        }
    }
    if j.keyframes[n - 1].timestamp <= 0 {
        return Option::Some(AssetError::NonPositivePeriod);
    }
    if !j.inv_bind.is_wf() {
        return Option::Some(AssetError::ComponentOutOfRange);
    }
    Option::None
}

/// The first failed joint-local check across the array, if any.
#[verifier::rlimit(30)]
fn check_all_joints(joints: &Vec<Joint>) -> (r: Option<AssetError>)
    ensures
        r is None <==> joints_wf(joints@),
        r matches Some(e) ==> (e == AssetError::NoKeyframes
            || e == AssetError::ComponentOutOfRange || e == AssetError::TimestampsNotIncreasing
            || e == AssetError::NonPositivePeriod),
{
    let n = joints.len();
    for i in 0..n
        invariant
            n == joints.len(),
            forall|k: int| 0 <= k < i ==> joint_wf(#[trigger] joints@[k]),
    {
        match check_joint(&joints[i]) {
            Option::Some(e) => {
                return Option::Some(e);
            },
            Option::None => {},
        }
    }
    Option::None
}

/// Does every parent index stay inside the array?
fn check_parents(joints: &Vec<Joint>) -> (r: bool)
    ensures
        r == parents_in_range(joints@),
{
    let n = joints.len();
    for i in 0..n
        invariant
            n == joints.len(),
            forall|k: int|
                0 <= k < i ==> match #[trigger] joints@[k].parent {
                    Option::Some(p) => p < joints@.len(),
                    Option::None => true,
                },
    {
        match joints[i].parent {
            Option::Some(p) => {
                if p >= n {
                    return false;
                }
            },
            Option::None => {},
        }
    }
    true
}

/// Walk every joint to its root; the depth array, or `None` on a chain
/// that never reaches one.
fn compute_depths(joints: &Vec<Joint>) -> (r: Option<Vec<usize>>)
    requires
        joints.len() <= MAX_JOINTS,
    ensures
        match r {
            Option::Some(depths) => depths.len() == joints.len() && forall|k: int|
                0 <= k < joints.len() ==> chain_depth(joints@, k, joints@.len() as nat)
                    == Option::Some(#[trigger] depths@[k] as nat),
            Option::None => !hierarchy_ok(joints@),
        },
{
    let n = joints.len();
    let mut depths: Vec<usize> = Vec::new();
    for i in 0..n
        invariant
            n == joints.len(),
            n <= MAX_JOINTS,
            depths.len() == i,
            forall|k: int|
                0 <= k < i ==> chain_depth(joints@, k, joints@.len() as nat)
                    == Option::Some(#[trigger] depths@[k] as nat),
    {
        match walk_depth(joints, i, n as u32) {
            Option::None => {
                return Option::None;
            },
            Option::Some(d) => {
                depths.push(d as usize);
            },
        }
    }
    Option::Some(depths)
}

impl Skeleton {
    /// Validate imported joints and assemble a skeleton. Succeeds
    /// exactly on a joint array within the ceiling whose joints are all
    /// well-formed and whose parent links form a forest inside the
    /// array; the computed depths then satisfy the skeleton invariant.
    pub fn from_joints(joints: Vec<Joint>) -> (r: Result<Skeleton, AssetError>)
        ensures
            r is Ok <==> (joints.len() <= MAX_JOINTS && joints_wf(joints@)
                && parents_in_range(joints@) && hierarchy_ok(joints@)),
            r matches Ok(s) ==> s.joints@ == joints@ && skel_wf(s),
            r == Result::<Skeleton, AssetError>::Err(AssetError::TooManyJoints) <==> joints.len()
                > MAX_JOINTS,
    {
        if joints.len() > MAX_JOINTS {
            return Result::Err(AssetError::TooManyJoints);
        }
        match check_all_joints(&joints) {
            Option::Some(e) => {
                return Result::Err(e);
            },
            Option::None => {},
        }
        if !check_parents(&joints) {
            return Result::Err(AssetError::BadParentIndex);
        }
        let n = joints.len();
        match compute_depths(&joints) {
            Option::None => Result::Err(AssetError::CyclicHierarchy),
            Option::Some(depths) => {
                let s = Skeleton { joints, depths };
                proof {
                    assert forall|i: int| 0 <= i < s.joints.len() implies match #[trigger] s
                        .joints[i].parent {
                        Option::None => s.depths[i] == 0,
                        Option::Some(p) => p < s.joints.len() && s.depths[i] == s.depths[p as int]
                            + 1,
                    } by {
                        match s.joints[i].parent {
                            Option::None => {},
                            Option::Some(p) => {
                                // The stored depth of the parent used one
                                // unit less fuel inside the walk; level
                                // the fuel.
                                assert(chain_depth(s.joints@, i, n as nat) == Option::Some(
                                    s.depths@[i] as nat,
                                ));
                                assert(chain_depth(s.joints@, p as int, (n - 1) as nat) is Some);
                                lemma_chain_depth_fuel(
                                    s.joints@,
                                    p as int,
                                    (n - 1) as nat,
                                    n as nat,
                                );
                            },
                        }
                    }
                }
                Result::Ok(s)
            },
        }
    }

    /// The number of joints.
    pub fn joint_count(&self) -> (r: usize)
        ensures
            r == self.joints.len(),
    {
        self.joints.len()
    }
}

} // verus!
