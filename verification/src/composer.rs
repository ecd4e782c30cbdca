//! The pose composer.
//!
//! For each joint the composer climbs the parent chain, pre-multiplying
//! each parent's local transform onto the accumulated child transform,
//! post-multiplies the joint's inverse bind pose to land in the
//! skinning space, and transposes for the uniform-buffer layout. The
//! output always holds `MAX_JOINTS` matrices; slots past the joint
//! count stay identity. The climb terminates because a valid skeleton
//! carries each joint's depth, strictly smaller at its parent.

use vstd::prelude::*;

verus! {

use crate::linalg::{
    lemma_mul_identity_left, mat_wf, mv_identity, mv_mul, mv_transpose, Mat4, Mat4v,
};
use crate::skeleton::{joint_wf, skel_wf, Skeleton, MAX_JOINTS};

/// The views of a vector of matrices.
pub open spec fn views_of(ms: Seq<Mat4>) -> Seq<Mat4v> {
    ms.map_values(|m: Mat4| m@)
}

/// The chain above `cur` applied to an accumulated tail: each parent's
/// local transform pre-multiplies, root first.
pub open spec fn lift_val(s: Skeleton, locals: Seq<Mat4v>, cur: int, acc: Mat4v) -> Mat4v
    decreases s.depths@[cur],
    when skel_wf(s) && 0 <= cur < s.joints.len() && locals.len() == s.joints.len()
{
    match s.joints@[cur].parent {
        Option::None => acc,
        Option::Some(p) => lift_val(s, locals, p as int, mv_mul(locals[p as int], acc)),
    }
}

/// The world transform of a joint: its own local transform lifted
/// through its parent chain.
pub open spec fn world_of(s: Skeleton, locals: Seq<Mat4v>, j: int) -> Mat4v {
    lift_val(s, locals, j, locals[j])
}

/// The skinning matrix of a joint: its world transform post-multiplied
/// by its inverse bind pose, transposed for upload.
pub open spec fn pose_of(s: Skeleton, locals: Seq<Mat4v>, j: int) -> Mat4v {
    mv_transpose(mv_mul(world_of(s, locals, j), s.joints@[j].inv_bind@))
}

/// The climb behind `lift_val`.
fn lift_exec(s: &Skeleton, locals: &Vec<Mat4>, cur: usize, acc: Mat4) -> (r: Mat4)
    requires
        skel_wf(*s),
        locals.len() == s.joints.len(),
        cur < s.joints.len(),
        forall|i: int| 0 <= i < locals.len() ==> mat_wf(#[trigger] locals@[i]@),
        mat_wf(acc@),
    ensures
        r@ == lift_val(*s, views_of(locals@), cur as int, acc@),
        mat_wf(r@),
    decreases s.depths@[cur as int],
{
    match s.joints[cur].parent {
        Option::None => acc,
        Option::Some(p) => {
            proof {
                assert(s.depths@[p as int] < s.depths@[cur as int]);
                assert(views_of(locals@)[p as int] == locals@[p as int]@);
            }
            lift_exec(s, locals, p, locals[p].mul_mat(&acc))
        },
    }
}

/// Compose the full pose: one skinning matrix per joint, identity in
/// every unused slot.
pub fn compose_pose(s: &Skeleton, locals: &Vec<Mat4>) -> (r: Vec<Mat4>)
    requires
        skel_wf(*s),
        locals.len() == s.joints.len(),
        forall|i: int| 0 <= i < locals.len() ==> mat_wf(#[trigger] locals@[i]@),
    ensures
        r.len() == MAX_JOINTS,
        forall|j: int|
            0 <= j < s.joints.len() ==> #[trigger] r@[j]@ == pose_of(*s, views_of(locals@), j),
        forall|j: int| s.joints.len() <= j < MAX_JOINTS ==> #[trigger] r@[j]@ == mv_identity(),
        forall|j: int| 0 <= j < MAX_JOINTS ==> mat_wf(#[trigger] r@[j]@),
{
    let count = s.joints.len();
    let mut out: Vec<Mat4> = Vec::new();
    for j in 0..count
        invariant
            count == s.joints.len(),
            skel_wf(*s),
            locals.len() == s.joints.len(),
            forall|i: int| 0 <= i < locals.len() ==> mat_wf(#[trigger] locals@[i]@),
            out.len() == j,
            forall|k: int|
                0 <= k < j ==> #[trigger] out@[k]@ == pose_of(*s, views_of(locals@), k),
            forall|k: int| 0 <= k < j ==> mat_wf(#[trigger] out@[k]@),
    {
        proof {
            assert(views_of(locals@)[j as int] == locals@[j as int]@);
        }
        let w = lift_exec(s, locals, j, locals[j]);
        let m = w.mul_mat(&s.joints[j].inv_bind);
        out.push(m.transpose());
    }
    while out.len() < MAX_JOINTS
        invariant
            count == s.joints.len(),
            count <= out.len() <= MAX_JOINTS,
            forall|k: int|
                0 <= k < count ==> #[trigger] out@[k]@ == pose_of(*s, views_of(locals@), k),
            forall|k: int| count <= k < out.len() ==> #[trigger] out@[k]@ == mv_identity(),
            forall|k: int| 0 <= k < out.len() ==> mat_wf(#[trigger] out@[k]@),
        decreases MAX_JOINTS - out.len(),
    {
        out.push(Mat4::identity());
    }
    out
}

/// A skeleton of one root joint with the identity local transform
/// composes to its own inverse bind pose, transposed.
pub proof fn lemma_single_root_pose(s: Skeleton, locals: Seq<Mat4v>)
    requires
        skel_wf(s),
        s.joints.len() == 1,
        locals.len() == 1,
        locals[0] == mv_identity(),
    ensures
        pose_of(s, locals, 0) == mv_transpose(s.joints@[0].inv_bind@),
{
    // The only joint is a root: a self-parent would give it a depth one
    // more than its own.
    assert(s.joints@[0].parent is None) by {
        match s.joints@[0].parent {
            Option::None => {},
            Option::Some(p) => {
                assert(p < 1);
                assert(s.depths@[0] == s.depths@[0] + 1);
            },
        }
    }
    assert(world_of(s, locals, 0) == mv_identity());
    assert(joint_wf(s.joints@[0]));
    lemma_mul_identity_left(s.joints@[0].inv_bind@);
}

/// Parent-before-child order: in a chain root -> a -> b, the composed
/// transform of `b` is the root's local transform applied first, then
/// `a`'s, then `b`'s own, then the inverse bind pose, transposed — the
/// parents pre-multiply in hierarchy order.
pub proof fn lemma_chain_pose(s: Skeleton, locals: Seq<Mat4v>)
    requires
        skel_wf(s),
        s.joints.len() == 3,
        locals.len() == 3,
        s.joints@[0].parent is None,
        s.joints@[1].parent == Option::Some(0usize),
        s.joints@[2].parent == Option::Some(1usize),
    ensures
        pose_of(s, locals, 2) == mv_transpose(
            mv_mul(
                mv_mul(locals[0], mv_mul(locals[1], locals[2])),
                s.joints@[2].inv_bind@,
            ),
        ),
{
    assert(lift_val(s, locals, 2, locals[2]) == lift_val(
        s,
        locals,
        1,
        mv_mul(locals[1], locals[2]),
    ));
    assert(lift_val(s, locals, 1, mv_mul(locals[1], locals[2])) == lift_val(
        s,
        locals,
        0,
        mv_mul(locals[0], mv_mul(locals[1], locals[2])),
    ));
    assert(lift_val(s, locals, 0, mv_mul(locals[0], mv_mul(locals[1], locals[2]))) == mv_mul(
        locals[0],
        mv_mul(locals[1], locals[2]),
    ));
}

} // verus!
