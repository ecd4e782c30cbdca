//! Decomposing imported joint data into keyframes.
//!
//! An asset importer supplies, per joint, a parent index, an inverse
//! bind matrix and a parallel (timestamp, sample-pose-matrix) list,
//! all row-major. Each sample matrix is transposed into column
//! convention and decomposed: the upper 3x3 block becomes a rotation
//! quaternion, the translation column a unit direction with its length
//! extracted. Out-of-range matrices or translations are load-time
//! errors.

use vstd::prelude::*;

verus! {

use crate::linalg::{mat_wf, mv_transpose, Mat4, Mat4v, MAT_LIM};
use crate::quat::{mat_quat_val, vnorm_val, vnormalize_val, Quat, Vec3, Vec3v};
use crate::skeleton::{AssetError, Joint, Keyframe};

/// The translation column of a transform.
pub open spec fn trans_col(m: Mat4v) -> Vec3v {
    Vec3v { x: m.m03, y: m.m13, z: m.m23 }
}

/// Is one raw sample usable: its transposed matrix within range, and
/// its translation length representable?
pub open spec fn sample_ok(raw: Mat4) -> bool {
    &&& mat_wf(mv_transpose(raw@))
    &&& vnorm_val(trans_col(mv_transpose(raw@))) <= MAT_LIM as int
}

/// The keyframe a raw sample decomposes into, by field.
pub open spec fn decomposed_rotation(raw: Mat4) -> crate::quat::Quatv {
    mat_quat_val(mv_transpose(raw@))
}

/// The unit translation direction of a raw sample.
pub open spec fn decomposed_direction(raw: Mat4) -> Vec3v {
    vnormalize_val(trans_col(mv_transpose(raw@)))
}

/// The translation length of a raw sample.
pub open spec fn decomposed_length(raw: Mat4) -> int {
    vnorm_val(trans_col(mv_transpose(raw@)))
}

/// Build one joint from its imported data. Succeeds exactly when the
/// timestamp and pose lists run in parallel and every sample is
/// usable; the result carries the parent link, the transposed inverse
/// bind pose, and one decomposed keyframe per sample. Timestamp order
/// and the period are the skeleton validation's business, not this
/// function's.
pub fn build_joint(
    parent: Option<usize>,
    inv_bind_raw: &Mat4,
    times: &Vec<i64>,
    poses_raw: &Vec<Mat4>,
) -> (r: Result<Joint, AssetError>)
    ensures
        r is Ok <==> (times.len() == poses_raw.len() && forall|k: int|
            0 <= k < poses_raw.len() ==> sample_ok(#[trigger] poses_raw@[k])),
        r matches Ok(j) ==> ({
            &&& j.parent == parent
            &&& j.inv_bind@ == mv_transpose(inv_bind_raw@)
            &&& j.keyframes.len() == times.len()
            &&& forall|k: int|
                0 <= k < times.len() ==> {
                    &&& (#[trigger] j.keyframes@[k]).timestamp == times@[k]
                    &&& j.keyframes@[k].rotation@ == decomposed_rotation(poses_raw@[k])
                    &&& j.keyframes@[k].direction@ == decomposed_direction(poses_raw@[k])
                    &&& j.keyframes@[k].length as int == decomposed_length(poses_raw@[k])
                }
        }),
        r matches Err(e) ==> (e == AssetError::MismatchedSamples || e
            == AssetError::ComponentOutOfRange),
{
    if times.len() != poses_raw.len() {
        return Result::Err(AssetError::MismatchedSamples);
    }
    let n = times.len();
    let mut keyframes: Vec<Keyframe> = Vec::new();
    for k in 0..n
        invariant
            n == times.len(),
            n == poses_raw.len(),
            keyframes.len() == k,
            forall|i: int| 0 <= i < k ==> sample_ok(#[trigger] poses_raw@[i]),
            forall|i: int|
                0 <= i < k ==> {
                    &&& (#[trigger] keyframes@[i]).timestamp == times@[i]
                    &&& keyframes@[i].rotation@ == decomposed_rotation(poses_raw@[i])
                    &&& keyframes@[i].direction@ == decomposed_direction(poses_raw@[i])
                    &&& keyframes@[i].length as int == decomposed_length(poses_raw@[i])
                },
    {
        let m = poses_raw[k].transpose();
        if !m.is_wf() {
            proof {
                if forall|i: int| 0 <= i < poses_raw.len() ==> sample_ok(#[trigger] poses_raw@[i]) {
                    assert(sample_ok(poses_raw@[k as int]));
                    assert(false);
                }
            }
            return Result::Err(AssetError::ComponentOutOfRange);
        }
        let t = Vec3 { x: m.m03, y: m.m13, z: m.m23 };
        let ln = t.norm();
        if ln > MAT_LIM {
            proof {
                if forall|i: int| 0 <= i < poses_raw.len() ==> sample_ok(#[trigger] poses_raw@[i]) {
                    assert(sample_ok(poses_raw@[k as int]));
                    assert(false);
                }
            }
            return Result::Err(AssetError::ComponentOutOfRange);
        }
        let dir = t.normalize();
        let q = Quat::from_matrix(&m);
        keyframes.push(
            Keyframe { timestamp: times[k], rotation: q, direction: dir, length: ln },
        );
    }
    Result::Ok(Joint { parent, inv_bind: inv_bind_raw.transpose(), keyframes })
}

} // verus!
