//! The pose sampler.
//!
//! Given a joint and a playback time, the sampler wraps the time into
//! the joint's own clip period, scans the keyframe timestamps for the
//! bracketing pair, and interpolates: the rotation by slerp, the
//! translation by rotating the first direction a fraction of the way
//! toward the second (renormalised, then scaled by the linearly blended
//! length). A time on or outside every open interval degrades to the
//! bracket's first sample with a zero fraction — exactly on a keyframe
//! the sample equals that keyframe, which is stated below as a law.

use vstd::prelude::*;

verus! {

use crate::clock::{advance_clock, advance_val};
use crate::fixed::FX_ONE;
use crate::interp::{lerp_fx, lerp_val, rotate_toward, rotate_toward_val, slerp, slerp_val};
use crate::linalg::{clampv, div_entry, Mat4, Mat4v, mat_wf, MAT_LIM};
use crate::quat::{
    quat_wf, rot_mat_val, vec_wf, vnormalize_val, vscale_val, Quat, Quatv, Vec3, Vec3v,
};
use crate::skeleton::{joint_wf, kf_wf, period_of, Joint, Keyframe};
use vstd::arithmetic::div_mod::{
    lemma_div_of0, lemma_div_pos_is_pos, lemma_multiply_divide_lt, lemma_small_mod,
};

/// Adjacent keyframe timestamps increase strictly.
pub open spec fn ts_sorted(kfs: Seq<Keyframe>) -> bool {
    forall|i: int|
        0 <= i < kfs.len() - 1 ==> #[trigger] kfs[i].timestamp < kfs[i + 1].timestamp
}

/// The bracket index for a time: the largest `i` whose timestamp is at
/// or before it, and 0 when the time lies before every keyframe.
pub open spec fn bracket_idx(kfs: Seq<Keyframe>, t: int) -> int
    decreases kfs.len(),
{
    if kfs.len() <= 1 {
        0
    } else if kfs[kfs.len() - 1].timestamp <= t {
        kfs.len() - 1
    } else {
        bracket_idx(kfs.drop_last(), t)
    }
}

/// The interpolation fraction inside the bracket: zero when the time
/// sits on the bracket's first timestamp, before every keyframe, or at
/// the final keyframe.
pub open spec fn bracket_frac(kfs: Seq<Keyframe>, t: int) -> int {
    let i = bracket_idx(kfs, t);
    if i + 1 < kfs.len() && kfs[i].timestamp <= t {
        clampv(
            ((t - kfs[i].timestamp) * FX_ONE as int) / (kfs[i + 1].timestamp
                - kfs[i].timestamp),
        )
    } else {
        0
    }
}

/// The second keyframe of the bracket: the next one, or the bracket
/// itself at the end of the clip.
pub open spec fn bracket_next(kfs: Seq<Keyframe>, t: int) -> int {
    let i = bracket_idx(kfs, t);
    if i + 1 < kfs.len() {
        i + 1
    } else {
        i
    }
}

/// The sampled rotation: slerp between the bracket's rotations.
pub open spec fn sample_rotation_val(kfs: Seq<Keyframe>, t: int) -> Quatv {
    slerp_val(
        kfs[bracket_idx(kfs, t)].rotation@,
        kfs[bracket_next(kfs, t)].rotation@,
        bracket_frac(kfs, t),
    )
}

/// The sampled translation: the first direction rotated a fraction of
/// the way toward the second, renormalised, scaled by the blended
/// length.
pub open spec fn sample_translation_val(kfs: Seq<Keyframe>, t: int) -> Vec3v {
    let i = bracket_idx(kfs, t);
    let i2 = bracket_next(kfs, t);
    let a = bracket_frac(kfs, t);
    let dir = rotate_toward_val(kfs[i].direction@, kfs[i2].direction@, a);
    vscale_val(vnormalize_val(dir), lerp_val(kfs[i].length as int, kfs[i2].length as int, a))
}

/// The sampled local transform: the rotation's matrix with the sampled
/// translation in its fourth column.
pub open spec fn sample_local_val(kfs: Seq<Keyframe>, t: int) -> Mat4v {
    rot_mat_val(sample_rotation_val(kfs, t), sample_translation_val(kfs, t))
}

/// The joint's local transform at a playback time, the time first
/// wrapped into the joint's own period.
pub open spec fn joint_local_val(j: Joint, t: int) -> Mat4v {
    sample_local_val(j.keyframes@, advance_val(t, 0, period_of(j)))
}

/// Timestamps grow across any index gap, not just adjacent ones.
pub proof fn lemma_ts_increasing(kfs: Seq<Keyframe>, a: int, b: int)
    requires
        ts_sorted(kfs),
        0 <= a <= b < kfs.len(),
    ensures
        kfs[a].timestamp <= kfs[b].timestamp,
        a < b ==> kfs[a].timestamp < kfs[b].timestamp,
    decreases b - a,
{
    if a < b {
        lemma_ts_increasing(kfs, a, b - 1);
        assert(kfs[b - 1].timestamp < kfs[b].timestamp);
    }
}

/// A pair that brackets the time is the bracket the scan defines.
pub proof fn lemma_bracket_found(kfs: Seq<Keyframe>, t: int, j: int)
    requires
        ts_sorted(kfs),
        0 <= j < kfs.len() - 1,
        kfs[j].timestamp <= t,
        t < kfs[j + 1].timestamp,
    ensures
        bracket_idx(kfs, t) == j,
    decreases kfs.len(),
{
    let n = kfs.len() as int;
    lemma_ts_increasing(kfs, j + 1, n - 1);
    if j == n - 2 {
        reveal_with_fuel(bracket_idx, 3);
        assert(kfs.drop_last()[j].timestamp == kfs[j].timestamp);
        if j > 0 {
            assert(kfs.drop_last()[j - 1].timestamp == kfs[j - 1].timestamp);
        }
    } else {
        let cut = kfs.drop_last();
        assert(ts_sorted(cut)) by {
            assert forall|i: int| 0 <= i < cut.len() - 1 implies #[trigger] cut[i].timestamp
                < cut[i + 1].timestamp by {
                assert(cut[i] == kfs[i] && cut[i + 1] == kfs[i + 1]);
            }
        }
        assert(cut[j].timestamp == kfs[j].timestamp);
        assert(cut[j + 1].timestamp == kfs[j + 1].timestamp);
        lemma_bracket_found(cut, t, j);
    }
}

/// A time before every keyframe gets bracket zero.
pub proof fn lemma_bracket_before(kfs: Seq<Keyframe>, t: int)
    requires
        ts_sorted(kfs),
        kfs.len() >= 1,
        t < kfs[0].timestamp,
    ensures
        bracket_idx(kfs, t) == 0,
    decreases kfs.len(),
{
    if kfs.len() > 1 {
        lemma_ts_increasing(kfs, 0, kfs.len() - 1);
        let cut = kfs.drop_last();
        assert(ts_sorted(cut)) by {
            assert forall|i: int| 0 <= i < cut.len() - 1 implies #[trigger] cut[i].timestamp
                < cut[i + 1].timestamp by {
                assert(cut[i] == kfs[i] && cut[i + 1] == kfs[i + 1]);
            }
        }
        lemma_bracket_before(cut, t);
    }
}

/// Scan the timestamps for the pair enclosing the time.
fn find_bracket(kfs: &Vec<Keyframe>, t: i64) -> (r: (usize, i64))
    requires
        kfs.len() >= 1,
        ts_sorted(kfs@),
        forall|i: int| 0 <= i < kfs.len() ==> kf_wf(#[trigger] kfs@[i]),
        0 <= t,
        t < kfs@[kfs.len() - 1].timestamp,
    ensures
        r.0 as int == bracket_idx(kfs@, t as int),
        r.1 as int == bracket_frac(kfs@, t as int),
        r.0 < kfs.len(),
        0 <= r.1 < FX_ONE,
{
    let n = kfs.len();
    for j in 0..n - 1
        invariant
            n == kfs.len(),
            n >= 1,
            ts_sorted(kfs@),
            forall|i: int| 0 <= i < kfs.len() ==> kf_wf(#[trigger] kfs@[i]),
            0 <= t < kfs@[n - 1].timestamp,
            forall|jj: int|
                0 <= jj < j ==> !(#[trigger] kfs@[jj].timestamp <= t && t < kfs@[jj + 1].timestamp),
    {
        if kfs[j].timestamp <= t && t < kfs[j + 1].timestamp {
            let lo = kfs[j].timestamp;
            let hi = kfs[j + 1].timestamp;
            let a = div_entry(t - lo, hi - lo);
            proof {
                lemma_bracket_found(kfs@, t as int, j as int);
                let num = (t - lo) as int * FX_ONE as int;
                lemma_div_pos_is_pos(num, (hi - lo) as int);
                assert(num < (hi - lo) as int * FX_ONE as int) by (nonlinear_arith)
                    requires
                        num == (t - lo) as int * FX_ONE as int,
                        0 <= ((t - lo) as int) < (hi - lo) as int,
                ;
                lemma_multiply_divide_lt(num, (hi - lo) as int, FX_ONE as int);
            }
            return (j, a);
        }
    }
    proof {
        // No interval held the time, so it lies before the first
        // keyframe: otherwise the scan invariant would push it past
        // the last timestamp.
        if t as int >= kfs@[0].timestamp {
            assert(forall|jj: int|
                0 <= jj < n ==> #[trigger] kfs@[jj].timestamp <= t) by {
                assert forall|jj: int| 0 <= jj < n implies #[trigger] kfs@[jj].timestamp
                    <= t by {
                    lemma_ts_up_to(kfs@, t as int, jj);
                }
            }
            assert(false);
        }
        lemma_bracket_before(kfs@, t as int);
    }
    (0, 0)
}

/// Within a scan that found no bracket, every timestamp up to an index
/// stays at or before the time.
proof fn lemma_ts_up_to(kfs: Seq<Keyframe>, t: int, j: int)
    requires
        ts_sorted(kfs),
        0 <= j < kfs.len(),
        kfs[0].timestamp <= t,
        forall|jj: int|
            0 <= jj < kfs.len() - 1 ==> !(#[trigger] kfs[jj].timestamp <= t && t < kfs[jj
                + 1].timestamp),
    ensures
        kfs[j].timestamp <= t,
    decreases j,
{
    if j > 0 {
        lemma_ts_up_to(kfs, t, j - 1);
        assert(!(kfs[j - 1].timestamp <= t && t < kfs[j].timestamp));
    }
}

/// Sample one joint's rotation and translation at a playback time; the
/// time is wrapped into the joint's own period first.
pub fn sample_joint_local(j: &Joint, time: i64) -> (r: (Quat, Vec3))
    requires
        joint_wf(*j),
        0 <= time <= MAT_LIM,
    ensures
        ({
            let tw = advance_val(time as int, 0, period_of(*j));
            r.0@ == sample_rotation_val(j.keyframes@, tw) && r.1@ == sample_translation_val(
                j.keyframes@,
                tw,
            ) && quat_wf(r.0@) && vec_wf(r.1@)
        }),
{
    let n = j.keyframes.len();
    let period = j.keyframes[n - 1].timestamp;
    let t = advance_clock(time, 0, period);
    let br = find_bracket(&j.keyframes, t);
    let i = br.0;
    let a = br.1;
    let i2 = if i + 1 < n {
        i + 1
    } else {
        i
    };
    let rot = slerp(&j.keyframes[i].rotation, &j.keyframes[i2].rotation, a);
    let dir = rotate_toward(&j.keyframes[i].direction, &j.keyframes[i2].direction, a);
    let dirn = dir.normalize();
    let ln = lerp_fx(j.keyframes[i].length, j.keyframes[i2].length, a);
    let trans = dirn.scale(ln);
    (rot, trans)
}

/// The joint's sampled local transform at a playback time.
pub fn sample_local_matrix(j: &Joint, time: i64) -> (r: Mat4)
    requires
        joint_wf(*j),
        0 <= time <= MAT_LIM,
    ensures
        r@ == joint_local_val(*j, time as int),
        mat_wf(r@),
{
    let rt = sample_joint_local(j, time);
    rt.0.to_matrix(&rt.1)
}

/// Sampling exactly on an internal keyframe's timestamp returns that
/// keyframe's rotation unchanged: the bracket lands on the keyframe
/// with a zero fraction, and slerp at zero is its first argument.
pub proof fn lemma_sample_hits_keyframe(j: Joint, i: int)
    requires
        joint_wf(j),
        0 <= i < j.keyframes.len() - 1,
    ensures
        sample_rotation_val(
            j.keyframes@,
            advance_val(j.keyframes@[i].timestamp as int, 0, period_of(j)),
        ) == j.keyframes@[i].rotation@,
{
    let kfs = j.keyframes@;
    let t = kfs[i].timestamp as int;
    let n = kfs.len() as int;
    lemma_ts_increasing(kfs, i, n - 1);
    assert(t < period_of(j));
    lemma_small_mod(t as nat, period_of(j) as nat);
    assert(advance_val(t, 0, period_of(j)) == t);
    lemma_bracket_found(kfs, t, i);
    lemma_div_of0((kfs[i + 1].timestamp - kfs[i].timestamp) as int);
    assert(bracket_frac(kfs, t) == 0);
}

} // verus!
