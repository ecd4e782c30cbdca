//! Animated meshes.
//!
//! An animated mesh owns its skinned vertex data, one skeleton, a
//! fixed-size current-pose array, a playback cursor, and a running
//! flag. Each simulation tick advances the cursor by the clip period
//! of the first joint (a stopped mesh stays put); each frame the
//! sampler and composer overwrite the pose array with one skinning
//! matrix per joint, identity in the unused slots.

use vstd::prelude::*;

verus! {

use crate::clock::{advance_clock, advance_val};
use crate::composer::{compose_pose, pose_of, views_of};
use crate::linalg::{mat_wf, mv_identity, Mat4, Mat4v, MAT_LIM};
use crate::meshdata::SkinVertex;
use crate::sampler::{joint_local_val, sample_local_matrix};
use crate::skeleton::{joint_wf, period_of, skel_wf, Skeleton, MAX_JOINTS};

/// The local transforms of every joint, sampled at one playback time.
pub open spec fn sampled_locals(s: Skeleton, t: int) -> Seq<Mat4v> {
    Seq::new(s.joints.len() as nat, |j: int| joint_local_val(s.joints@[j], t))
}

/// A skinned mesh under one skeleton and one playback clock.
pub struct AnimatedMesh {
    pub vertices: Vec<SkinVertex>,
    pub indices: Vec<u16>,
    pub skeleton: Skeleton,
    pub current_pose: Vec<Mat4>,
    pub current_time: i64,
    pub running: bool,
}

/// A usable animated mesh: a valid, non-empty skeleton, a full pose
/// array, and a representable cursor.
pub open spec fn am_wf(m: AnimatedMesh) -> bool {
    &&& skel_wf(m.skeleton)
    &&& m.skeleton.joints.len() >= 1
    &&& m.current_pose.len() == MAX_JOINTS
    &&& 0 <= m.current_time <= MAT_LIM as int
}

/// The clip period that drives this mesh's clock: the first joint's.
pub open spec fn mesh_period(m: AnimatedMesh) -> int {
    period_of(m.skeleton.joints@[0])
}

impl AnimatedMesh {
    /// A freshly loaded mesh: cursor at zero, not running, every pose
    /// slot identity.
    pub fn new(vertices: Vec<SkinVertex>, indices: Vec<u16>, skeleton: Skeleton) -> (r:
        AnimatedMesh)
        requires
            skel_wf(skeleton),
            skeleton.joints.len() >= 1,
        ensures
            am_wf(r),
            r.vertices == vertices,
            r.indices == indices,
            r.skeleton == skeleton,
            r.current_time == 0,
            r.running == false,
            forall|j: int| 0 <= j < MAX_JOINTS ==> #[trigger] r.current_pose@[j]@ == mv_identity(),
    {
        let mut pose: Vec<Mat4> = Vec::new();
        while pose.len() < MAX_JOINTS
            invariant
                pose.len() <= MAX_JOINTS,
                forall|j: int| 0 <= j < pose.len() ==> #[trigger] pose@[j]@ == mv_identity(),
            decreases MAX_JOINTS - pose.len(),
        {
            pose.push(Mat4::identity());
        }
        AnimatedMesh {
            vertices,
            indices,
            skeleton,
            current_pose: pose,
            current_time: 0,
            running: false,
        }
    }

    /// One clock tick: a running mesh's cursor advances by the delta
    /// and wraps into the clip period; a stopped mesh is untouched.
    pub fn advance_time(&mut self, delta: i64)
        requires
            am_wf(*old(self)),
            0 <= delta <= MAT_LIM,
        ensures
            am_wf(*final(self)),
            final(self).vertices == old(self).vertices,
            final(self).indices == old(self).indices,
            final(self).skeleton == old(self).skeleton,
            final(self).current_pose == old(self).current_pose,
            final(self).running == old(self).running,
            !old(self).running ==> final(self).current_time == old(self).current_time,
            old(self).running ==> final(self).current_time as int == advance_val(
                old(self).current_time as int,
                delta as int,
                mesh_period(*old(self)),
            ),
    {
        if self.running {
            proof {
                assert(joint_wf(self.skeleton.joints@[0]));
            }
            let n = self.skeleton.joints[0].keyframes.len();
            let period = self.skeleton.joints[0].keyframes[n - 1].timestamp;
            self.current_time = advance_clock(self.current_time, delta, period);
        }
    }

    /// Overwrite the pose array from the current cursor: sample every
    /// joint's local transform, compose the hierarchy, and leave
    /// identity in the slots past the joint count.
    pub fn calculate_current_pose(&mut self)
        requires
            am_wf(*old(self)),
        ensures
            am_wf(*final(self)),
            final(self).vertices == old(self).vertices,
            final(self).indices == old(self).indices,
            final(self).skeleton == old(self).skeleton,
            final(self).current_time == old(self).current_time,
            final(self).running == old(self).running,
            final(self).current_pose.len() == MAX_JOINTS,
            forall|j: int|
                0 <= j < old(self).skeleton.joints.len() ==> #[trigger] final(self).current_pose@[j]@
                    == pose_of(
                    old(self).skeleton,
                    sampled_locals(old(self).skeleton, old(self).current_time as int),
                    j,
                ),
            forall|j: int|
                old(self).skeleton.joints.len() <= j < MAX_JOINTS
                    ==> #[trigger] final(self).current_pose@[j]@ == mv_identity(),
    {
        let count = self.skeleton.joints.len();
        let mut locals: Vec<Mat4> = Vec::new();
        for j in 0..count
            invariant
                count == self.skeleton.joints.len(),
                am_wf(*self),
                self == old(self),
                locals.len() == j,
                forall|k: int|
                    0 <= k < j ==> #[trigger] locals@[k]@ == joint_local_val(
                        self.skeleton.joints@[k],
                        self.current_time as int,
                    ),
                forall|k: int| 0 <= k < j ==> mat_wf(#[trigger] locals@[k]@),
        {
            proof {
                assert(joint_wf(self.skeleton.joints@[j as int]));
            }
            let m = sample_local_matrix(&self.skeleton.joints[j], self.current_time);
            locals.push(m);
        }
        proof {
            assert(views_of(locals@) =~= sampled_locals(self.skeleton, self.current_time as int));
        }
        let pose = compose_pose(&self.skeleton, &locals);
        self.current_pose = pose;
    }
}

} // verus!
