//! The scene: loaded meshes, the streaming queue, and the per-tick
//! decisions of the game loop.
//!
//! A world owns the static meshes with their placements, the animated
//! meshes, and the mesh stream queue. Each simulation tick advances
//! every animated mesh's clock; each frame recomputes their poses and
//! polls the queue once, placing a received mesh in a row along the
//! x axis with a fixed downscale. The game loop's keyboard decisions —
//! movement direction from chorded keys, the speed boost, the
//! fixed-timestep update count — are plain functions from key state to
//! action.

use vstd::prelude::*;

verus! {

use crate::clock::advance_val;
use crate::composer::pose_of;
use crate::fixed::FX_ONE;
use crate::linalg::{clamp_lim, clampv, mat_wf, mv_identity, mv_mul, Mat4, Mat4v, MAT_LIM};
use crate::mesh::{am_wf, mesh_period, sampled_locals, AnimatedMesh};
use crate::meshdata::MeshVertex;
use crate::queue::{poll_val, MeshStreamQueue};
use crate::quat::{vec_wf, Vec3, Vec3v};
use crate::skeleton::MAX_JOINTS;

/// A quarter turn to the left of straight ahead.
pub const QUARTER_PI_FX: i64 = 51472;

/// Three quarter turns: behind-left.
pub const THREE_QUARTER_PI_FX: i64 = 154416;

/// Five quarter turns: behind-right.
pub const FIVE_QUARTER_PI_FX: i64 = 257359;

/// Seven quarter turns: ahead-right.
pub const SEVEN_QUARTER_PI_FX: i64 = 360303;

/// The walking speed, in world units per millisecond.
pub const CAM_SPEED_FX: i64 = 66;

/// The boosted speed while the modifier is held.
pub const CAM_SPEED_BOOST_FX: i64 = 328;

/// The downscale applied to every streamed mesh.
pub const STREAM_SCALE_FX: i64 = 6554;

/// The observed state of one key.
#[derive(Clone, Copy, Debug, PartialEq, Eq, Structural)]
pub enum Keystate {
    Nothing,
    Pressed,
    Released,
}

/// Which movement keys are held this tick.
#[derive(Clone, Copy, Debug, PartialEq, Eq, Structural)]
pub struct KeyStates {
    pub forward: bool,
    pub back: bool,
    pub left: bool,
    pub right: bool,
    pub up: bool,
    pub down: bool,
    pub boost: bool,
}

/// What the camera should do this tick.
#[derive(Clone, Copy, Debug, PartialEq, Eq, Structural)]
pub enum CamAction {
    /// Conflicting or no movement keys: stay put.
    Hold,
    /// Walk at an angle from the view direction, in fixed-point
    /// radians about the vertical axis.
    MoveAngle(i64),
    Forward,
    Backward,
    /// The left key strafes to the camera's right.
    StrafeRight,
    /// The right key strafes to the camera's left.
    StrafeLeft,
    Up,
    Down,
}

/// The movement decision: opposed keys cancel the tick, chorded
/// forward/backward with left/right walk diagonally, a single key
/// walks its direction.
pub open spec fn cam_action_val(k: KeyStates) -> CamAction {
    if (k.forward && k.back) || (k.left && k.right) || (k.up && k.down) {
        CamAction::Hold
    } else if k.forward && k.left {
        CamAction::MoveAngle(QUARTER_PI_FX)
    } else if k.forward && k.right {
        CamAction::MoveAngle(SEVEN_QUARTER_PI_FX)
    } else if k.back && k.left {
        CamAction::MoveAngle(THREE_QUARTER_PI_FX)
    } else if k.back && k.right {
        CamAction::MoveAngle(FIVE_QUARTER_PI_FX)
    } else if k.forward {
        CamAction::Forward
    } else if k.back {
        CamAction::Backward
    } else if k.left {
        CamAction::StrafeRight
    } else if k.right {
        CamAction::StrafeLeft
    } else if k.up {
        CamAction::Up
    } else if k.down {
        CamAction::Down
    } else {
        CamAction::Hold
    }
}

/// Decide the camera's movement for this tick.
pub fn cam_action(k: &KeyStates) -> (r: CamAction)
    ensures
        r == cam_action_val(*k),
{
    if (k.forward && k.back) || (k.left && k.right) || (k.up && k.down) {
        CamAction::Hold
    } else if k.forward && k.left {
        CamAction::MoveAngle(QUARTER_PI_FX)
    } else if k.forward && k.right {
        CamAction::MoveAngle(SEVEN_QUARTER_PI_FX)
    } else if k.back && k.left {
        CamAction::MoveAngle(THREE_QUARTER_PI_FX)
    } else if k.back && k.right {
        CamAction::MoveAngle(FIVE_QUARTER_PI_FX)
    } else if k.forward {
        CamAction::Forward
    } else if k.back {
        CamAction::Backward
    } else if k.left {
        CamAction::StrafeRight
    } else if k.right {
        CamAction::StrafeLeft
    } else if k.up {
        CamAction::Up
    } else if k.down {
        CamAction::Down
    } else {
        CamAction::Hold
    }
}

/// The camera speed for this tick: boosted while the modifier is held.
pub fn cam_speed(boost: bool) -> (r: i64)
    ensures
        r == if boost {
            CAM_SPEED_BOOST_FX
        } else {
            CAM_SPEED_FX
        },
{
    if boost {
        CAM_SPEED_BOOST_FX
    } else {
        CAM_SPEED_FX
    }
}

/// How many fixed-step updates to run after some elapsed time, and the
/// lag carried into the next frame.
pub fn schedule_updates(lag: i64, elapsed: i64, step: i64) -> (r: (u64, i64))
    requires
        0 < step <= MAT_LIM,
        0 <= lag < step,
        0 <= elapsed <= MAT_LIM,
    ensures
        r.0 as int == (lag + elapsed) / (step as int),
        r.1 as int == (lag + elapsed) % (step as int),
        0 <= r.1 < step,
{
    let total: u64 = (lag as u64) + (elapsed as u64);
    let q: u64 = total / (step as u64);
    let rem: u64 = total % (step as u64);
    (q, rem as i64)
}

/// A pure translation transform.
pub open spec fn translation_mat_val(v: Vec3v) -> Mat4v {
    Mat4v {
        m00: FX_ONE as int,
        m01: 0,
        m02: 0,
        m03: v.x,
        m10: 0,
        m11: FX_ONE as int,
        m12: 0,
        m13: v.y,
        m20: 0,
        m21: 0,
        m22: FX_ONE as int,
        m23: v.z,
        m30: 0,
        m31: 0,
        m32: 0,
        m33: FX_ONE as int,
    }
}

/// A uniform scaling transform.
pub open spec fn scaling_mat_val(k: int) -> Mat4v {
    Mat4v {
        m00: k,
        m01: 0,
        m02: 0,
        m03: 0,
        m10: 0,
        m11: k,
        m12: 0,
        m13: 0,
        m20: 0,
        m21: 0,
        m22: k,
        m23: 0,
        m30: 0,
        m31: 0,
        m32: 0,
        m33: FX_ONE as int,
    }
}

impl Mat4 {
    /// A pure translation.
    pub fn translation(v: &Vec3) -> (r: Mat4)
        requires
            vec_wf(v@),
        ensures
            r@ == translation_mat_val(v@),
            mat_wf(r@),
    {
        Mat4 {
            m00: FX_ONE,
            m01: 0,
            m02: 0,
            m03: v.x,
            m10: 0,
            m11: FX_ONE,
            m12: 0,
            m13: v.y,
            m20: 0,
            m21: 0,
            m22: FX_ONE,
            m23: v.z,
            m30: 0,
            m31: 0,
            m32: 0,
            m33: FX_ONE,
        }
    }

    /// A uniform scaling.
    pub fn scaling(k: i64) -> (r: Mat4)
        requires
            -MAT_LIM <= k <= MAT_LIM,
        ensures
            r@ == scaling_mat_val(k as int),
            mat_wf(r@),
    {
        Mat4 {
            m00: k,
            m01: 0,
            m02: 0,
            m03: 0,
            m10: 0,
            m11: k,
            m12: 0,
            m13: 0,
            m20: 0,
            m21: 0,
            m22: k,
            m23: 0,
            m30: 0,
            m31: 0,
            m32: 0,
            m33: FX_ONE,
        }
    }
}

/// A model's placement: rotation, scale and translation, multiplied
/// translation-first into the model matrix.
#[derive(Clone, Copy, Debug)]
pub struct ModelRst {
    pub rotation: Mat4,
    pub scale: Mat4,
    pub translation: Mat4,
}

/// All three placement transforms within range.
pub open spec fn rst_wf(m: ModelRst) -> bool {
    mat_wf(m.rotation@) && mat_wf(m.scale@) && mat_wf(m.translation@)
}

impl ModelRst {
    /// An identity placement.
    pub fn identity() -> (r: ModelRst)
        ensures
            r.rotation@ == mv_identity(),
            r.scale@ == mv_identity(),
            r.translation@ == mv_identity(),
            rst_wf(r),
    {
        ModelRst {
            rotation: Mat4::identity(),
            scale: Mat4::identity(),
            translation: Mat4::identity(),
        }
    }

    /// The model matrix: translation, then rotation, then scale.
    pub fn model_matrix(&self) -> (r: Mat4)
        requires
            rst_wf(*self),
        ensures
            r@ == mv_mul(mv_mul(self.translation@, self.rotation@), self.scale@),
            mat_wf(r@),
    {
        self.translation.mul_mat(&self.rotation).mul_mat(&self.scale)
    }
}

/// A static mesh ready for upload: vertices and a triangle-list index
/// buffer.
#[derive(Clone, Debug)]
pub struct StaticMesh {
    pub vertices: Vec<MeshVertex>,
    pub indices: Vec<u16>,
}

/// The placement a streamed mesh receives: identity rotation, the
/// fixed downscale, and a translation one unit further along x per
/// mesh already in the scene, two units into the view.
pub fn streamed_placement(count: usize) -> (r: ModelRst)
    ensures
        r.rotation@ == mv_identity(),
        r.scale@ == scaling_mat_val(STREAM_SCALE_FX as int),
        r.translation@ == translation_mat_val(
            Vec3v { x: clampv(count as int * FX_ONE as int), y: 0, z: 2 * FX_ONE as int },
        ),
        rst_wf(r),
{
    let x = clamp_lim((count as i128) * 65536);
    let v = Vec3 { x, y: 0, z: 2 * FX_ONE };
    ModelRst {
        rotation: Mat4::identity(),
        scale: Mat4::scaling(STREAM_SCALE_FX),
        translation: Mat4::translation(&v),
    }
}

/// One animated mesh after a clock tick: everything as before but the
/// cursor, advanced and wrapped when the mesh is running.
pub open spec fn ticked(o: AnimatedMesh, n: AnimatedMesh, delta: int) -> bool {
    &&& n.vertices == o.vertices
    &&& n.indices == o.indices
    &&& n.skeleton == o.skeleton
    &&& n.current_pose == o.current_pose
    &&& n.running == o.running
    &&& n.current_time as int == if o.running {
        advance_val(o.current_time as int, delta, mesh_period(o))
    } else {
        o.current_time as int
    }
}

/// One animated mesh after a pose refresh: everything as before but
/// the pose array, rewritten from the cursor.
pub open spec fn posed(o: AnimatedMesh, n: AnimatedMesh) -> bool {
    &&& n.vertices == o.vertices
    &&& n.indices == o.indices
    &&& n.skeleton == o.skeleton
    &&& n.current_time == o.current_time
    &&& n.running == o.running
    &&& n.current_pose.len() == MAX_JOINTS
    &&& forall|j: int|
        0 <= j < o.skeleton.joints.len() ==> #[trigger] n.current_pose@[j]@ == pose_of(
            o.skeleton,
            sampled_locals(o.skeleton, o.current_time as int),
            j,
        )
    &&& forall|j: int|
        o.skeleton.joints.len() <= j < MAX_JOINTS ==> #[trigger] n.current_pose@[j]@
            == mv_identity()
}

/// The loaded scene and its streaming queue.
pub struct World {
    pub models: Vec<(ModelRst, StaticMesh)>,
    pub animated_models: Vec<(ModelRst, AnimatedMesh)>,
    pub queue: MeshStreamQueue,
}

/// Every animated mesh usable.
pub open spec fn world_wf(w: World) -> bool {
    forall|i: int|
        0 <= i < w.animated_models.len() ==> am_wf(#[trigger] w.animated_models[i].1)
}

impl World {
    /// An empty scene.
    pub fn new() -> (r: World)
        ensures
            r.models.len() == 0,
            r.animated_models.len() == 0,
            r.queue@.items.len() == 0,
            r.queue@.ready == 0,
            world_wf(r),
    {
        World { models: Vec::new(), animated_models: Vec::new(), queue: MeshStreamQueue::new() }
    }

    /// One simulation tick: advance every running animated mesh's
    /// clock by the delta.
    #[verifier::rlimit(100)]
    #[verifier::spinoff_prover]
    pub fn advance_animations(&mut self, delta: i64)
        requires
            world_wf(*old(self)),
            0 <= delta <= MAT_LIM,
        ensures
            world_wf(*final(self)),
            final(self).models == old(self).models,
            final(self).queue == old(self).queue,
            final(self).animated_models.len() == old(self).animated_models.len(),
            forall|i: int|
                0 <= i < old(self).animated_models.len()
                    ==> (#[trigger] final(self).animated_models@[i]).0
                    == old(self).animated_models@[i].0 && ticked(
                    old(self).animated_models@[i].1,
                    final(self).animated_models@[i].1,
                    delta as int,
                ),
    {
        let n = self.animated_models.len();
        let ghost orig = self.animated_models@;
        proof {
            assert(orig.skip(0) =~= orig);
        }
        let mut done: Vec<(ModelRst, AnimatedMesh)> = Vec::new();
        for i in 0..n
            invariant
                n == orig.len(),
                0 <= delta <= MAT_LIM,
                self.models == old(self).models,
                self.queue == old(self).queue,
                self.animated_models@ == orig.skip(i as int),
                forall|k: int| 0 <= k < orig.len() ==> am_wf(#[trigger] orig[k].1),
                done.len() == i,
                forall|k: int|
                    0 <= k < i ==> (#[trigger] done@[k]).0 == orig[k].0 && ticked(
                        orig[k].1,
                        done@[k].1,
                        delta as int,
                    ),
                forall|k: int| 0 <= k < done.len() ==> am_wf(#[trigger] done@[k].1),
        {
            let entry = self.animated_models.remove(0);
            let mut m = entry.1;
            proof {
                assert(orig.skip(i as int)[0] == orig[i as int]);
                assert(orig.skip(i as int).remove(0) =~= orig.skip(i + 1));
            }
            m.advance_time(delta);
            proof {
                assert(ticked(orig[i as int].1, m, delta as int));
            }
            let ghost pre = done@;
            done.push((entry.0, m));
            proof {
                assert forall|k: int| 0 <= k < done.len() implies (#[trigger] done@[k]).0
                    == orig[k].0 && ticked(orig[k].1, done@[k].1, delta as int) && am_wf(
                    done@[k].1,
                ) by {
                    if k < pre.len() {
                        assert(done@[k] == pre[k]);
                    } else {
                        assert(done@[k] == (entry.0, m));
                    }
                }
            }
        }
        self.animated_models = done;
    }

    /// One frame's pose pass: rewrite every animated mesh's pose array
    /// from its cursor.
    #[verifier::rlimit(100)]
    #[verifier::spinoff_prover]
    pub fn refresh_poses(&mut self)
        requires
            world_wf(*old(self)),
        ensures
            world_wf(*final(self)),
            final(self).models == old(self).models,
            final(self).queue == old(self).queue,
            final(self).animated_models.len() == old(self).animated_models.len(),
            forall|i: int|
                0 <= i < old(self).animated_models.len()
                    ==> (#[trigger] final(self).animated_models@[i]).0
                    == old(self).animated_models@[i].0 && posed(
                    old(self).animated_models@[i].1,
                    final(self).animated_models@[i].1,
                ),
    {
        let n = self.animated_models.len();
        let ghost orig = self.animated_models@;
        proof {
            assert(orig.skip(0) =~= orig);
        }
        let mut done: Vec<(ModelRst, AnimatedMesh)> = Vec::new();
        for i in 0..n
            invariant
                n == orig.len(),
                self.models == old(self).models,
                self.queue == old(self).queue,
                self.animated_models@ == orig.skip(i as int),
                forall|k: int| 0 <= k < orig.len() ==> am_wf(#[trigger] orig[k].1),
                done.len() == i,
                forall|k: int|
                    0 <= k < i ==> (#[trigger] done@[k]).0 == orig[k].0 && posed(
                        orig[k].1,
                        done@[k].1,
                    ),
                forall|k: int| 0 <= k < done.len() ==> am_wf(#[trigger] done@[k].1),
        {
            let entry = self.animated_models.remove(0);
            let mut m = entry.1;
            proof {
                assert(orig.skip(i as int)[0] == orig[i as int]);
                assert(orig.skip(i as int).remove(0) =~= orig.skip(i + 1));
            }
            m.calculate_current_pose();
            proof {
                assert(posed(orig[i as int].1, m));
            }
            let ghost pre = done@;
            done.push((entry.0, m));
            proof {
                assert forall|k: int| 0 <= k < done.len() implies (#[trigger] done@[k]).0
                    == orig[k].0 && posed(orig[k].1, done@[k].1) && am_wf(done@[k].1) by {
                    if k < pre.len() {
                        assert(done@[k] == pre[k]);
                    } else {
                        assert(done@[k] == (entry.0, m));
                    }
                }
            }
        }
        self.animated_models = done;
    }

    /// One frame's queue pass: poll the stream once; a received mesh
    /// joins the scene under the streamed placement, an empty poll is
    /// a no-op for this frame.
    pub fn drain_streamed(&mut self)
        requires
            world_wf(*old(self)),
        ensures
            world_wf(*final(self)),
            final(self).animated_models == old(self).animated_models,
            final(self).queue@ == poll_val(old(self).queue@).0,
            poll_val(old(self).queue@).1 is None ==> final(self).models == old(self).models,
            poll_val(old(self).queue@).1 matches Some(p) ==> ({
                let count = old(self).models.len() as int;
                &&& final(self).models.len() == count + 1
                &&& forall|i: int|
                    0 <= i < count ==> #[trigger] final(self).models@[i] == old(self).models@[i]
                &&& final(self).models@[count].1.vertices == p.vertices
                &&& final(self).models@[count].1.indices == p.indices
                &&& final(self).models@[count].0.rotation@ == mv_identity()
                &&& final(self).models@[count].0.scale@ == scaling_mat_val(STREAM_SCALE_FX as int)
                &&& final(self).models@[count].0.translation@ == translation_mat_val(
                    Vec3v { x: clampv(count * FX_ONE as int), y: 0, z: 2 * FX_ONE as int },
                )
            }),
    {
        match self.queue.poll() {
            Option::None => {},
            Option::Some(payload) => {
                let rst = streamed_placement(self.models.len());
                let mesh = StaticMesh { vertices: payload.vertices, indices: payload.indices };
                self.models.push((rst, mesh));
            },
        }
    }
}

} // verus!
