//! Interpolation between keyframe samples.
//!
//! `slerp` walks the shortest arc between two unit quaternions: when the
//! rotations are nearly aligned it falls back to a normalised linear
//! blend, otherwise it weights both ends by sines of the swept angle.
//! `from_arc` builds the shortest rotation carrying one direction onto
//! another, and `rotate_toward` applies a fraction of that rotation —
//! the sampler's way of blending translation directions without
//! shrinking their magnitude.

use vstd::prelude::*;

verus! {

use crate::fixed::{fx_sqrt, fx_sqrt_val, FX_ONE};
use crate::linalg::{
    add_lim, clampv, dot4, in_lim, mul_lim, scale_entry, scaled, div_entry, MAT_LIM,
};
use crate::quat::{
    qcombine_val, qdot_val, qneg_val, qnormalize_val, qrot_val, quat_wf, vcross_val,
    vec_wf, vnorm_val, Quat, Quatv, Vec3, Vec3v,
};
use crate::trig::{acos_fx, acos_val, sin_fx, sin_val};
use vstd::arithmetic::div_mod::{
    lemma_div_is_ordered, lemma_div_multiples_vanish, lemma_div_pos_is_pos,
};

/// Alignment above which two rotations count as nearly equal and the
/// normalised linear blend is used instead of the sine weights.
pub const DOT_THRESHOLD_FX: i64 = 65503;

/// Slack within which two directions count as parallel.
pub const ARC_EPS_FX: i64 = 8;

/// The normalised linear blend `normalize((1 - a)·q1 + a·qb)`.
pub open spec fn nlerp_val(q1: Quatv, qb: Quatv, a: int) -> Quatv {
    qnormalize_val(qcombine_val(q1, FX_ONE as int - a, qb, a))
}

/// The linear blend of two scalars, `(1 - a)·l1 + a·l2`, scaled once.
pub open spec fn lerp_val(l1: int, l2: int, a: int) -> int {
    scaled(l1 * (FX_ONE as int - a) + l2 * a)
}

/// The slerp of two already sign-aligned quaternions with alignment `d`,
/// for an interior fraction `a`.
pub open spec fn slerp_core_val(q1: Quatv, qb: Quatv, d: int, a: int) -> Quatv {
    if d > DOT_THRESHOLD_FX as int {
        nlerp_val(q1, qb, a)
    } else {
        let dc = if d > FX_ONE as int {
            FX_ONE as int
        } else if d < -FX_ONE as int {
            -FX_ONE as int
        } else {
            d
        };
        let theta = acos_val(dc);
        let ang1 = scaled((FX_ONE as int - a) * theta);
        let ang2 = scaled(a * theta);
        let st = sin_val(theta);
        if st <= 0 {
            nlerp_val(q1, qb, a)
        } else {
            let w1 = clampv((sin_val(ang1) * FX_ONE as int) / st);
            let w2 = clampv((sin_val(ang2) * FX_ONE as int) / st);
            qnormalize_val(qcombine_val(q1, w1, qb, w2))
        }
    }
}

/// Spherical linear interpolation along the shortest arc. The fraction
/// is clamped: at or below zero the first quaternion is returned
/// unchanged, at or above one the (sign-aligned) second.
pub open spec fn slerp_val(q1: Quatv, q2: Quatv, a: int) -> Quatv {
    let d0 = qdot_val(q1, q2);
    if a <= 0 {
        q1
    } else if a >= FX_ONE as int {
        if d0 < 0 {
            qneg_val(q2)
        } else {
            q2
        }
    } else if d0 < 0 {
        slerp_core_val(q1, qneg_val(q2), -d0, a)
    } else {
        slerp_core_val(q1, q2, d0, a)
    }
}

/// The fallback rotation axis for opposite directions: something
/// perpendicular to the source.
pub open spec fn arc_axis_val(src: Vec3v) -> Vec3v {
    let v1 = vcross_val(Vec3v { x: FX_ONE as int, y: 0, z: 0 }, src);
    if vnorm_val(v1) == 0 {
        crate::quat::vnormalize_val(vcross_val(Vec3v { x: 0, y: FX_ONE as int, z: 0 }, src))
    } else {
        crate::quat::vnormalize_val(v1)
    }
}

/// The shortest rotation carrying `src` onto `dst`: identity for
/// parallel directions, a half turn about a perpendicular axis for
/// opposite ones, otherwise the normalised quaternion built from the
/// magnitudes' mean, the dot and the cross product.
pub open spec fn from_arc_val(src: Vec3v, dst: Vec3v) -> Quatv {
    let m2a = scaled(src.x * src.x + src.y * src.y + src.z * src.z);
    let m2b = scaled(dst.x * dst.x + dst.y * dst.y + dst.z * dst.z);
    let mag = clampv(fx_sqrt_val(scaled(m2a * m2b)));
    let d = scaled(src.x * dst.x + src.y * dst.y + src.z * dst.z);
    if d >= mag - ARC_EPS_FX as int {
        Quatv { s: FX_ONE as int, x: 0, y: 0, z: 0 }
    } else if d <= -mag + ARC_EPS_FX as int {
        let ax = arc_axis_val(src);
        Quatv { s: 0, x: ax.x, y: ax.y, z: ax.z }
    } else {
        let c = vcross_val(src, dst);
        qnormalize_val(Quatv { s: clampv(mag + d), x: c.x, y: c.y, z: c.z })
    }
}

/// A fraction of the shortest rotation from `src` toward `dst`, applied
/// to `src`.
pub open spec fn rotate_toward_val(src: Vec3v, dst: Vec3v, a: int) -> Vec3v {
    let arc = from_arc_val(src, dst);
    let part = slerp_val(Quatv { s: FX_ONE as int, x: 0, y: 0, z: 0 }, arc, a);
    qrot_val(part, src)
}

/// The linear blend of two scalars.
pub fn lerp_fx(l1: i64, l2: i64, a: i64) -> (r: i64)
    requires
        in_lim(l1 as int),
        in_lim(l2 as int),
        0 <= a <= FX_ONE,
    ensures
        r as int == lerp_val(l1 as int, l2 as int, a as int),
        in_lim(r as int),
{
    dot4(l1, FX_ONE - a, l2, a, 0, 0, 0, 0)
}

/// The normalised linear blend.
fn nlerp(q1: &Quat, qb: &Quat, a: i64) -> (r: Quat)
    requires
        quat_wf(q1@),
        quat_wf(qb@),
        0 <= a <= FX_ONE,
    ensures
        r@ == nlerp_val(q1@, qb@, a as int),
        quat_wf(r@),
{
    q1.combine(FX_ONE - a, qb, a).normalize()
}

/// The slerp of two sign-aligned quaternions for an interior fraction.
fn slerp_core(q1: &Quat, qb: &Quat, d: i64, a: i64) -> (r: Quat)
    requires
        quat_wf(q1@),
        quat_wf(qb@),
        0 < a < FX_ONE,
    ensures
        r@ == slerp_core_val(q1@, qb@, d as int, a as int),
        quat_wf(r@),
{
    if d > DOT_THRESHOLD_FX {
        nlerp(q1, qb, a)
    } else {
        let dc = if d > FX_ONE {
            FX_ONE
        } else if d < -FX_ONE {
            -FX_ONE
        } else {
            d
        };
        let theta = acos_fx(dc);
        let ang1 = scale_entry(mul_lim(FX_ONE - a, theta));
        let ang2 = scale_entry(mul_lim(a, theta));
        proof {
            let t = theta as int;
            assert(0 <= (65536 - (a as int)) * t && (65536 - (a as int)) * t <= 65536 * t
                && 0 <= (a as int) * t && (a as int) * t <= 65536 * t) by (nonlinear_arith)
                requires
                    0 < (a as int) < 65536,
                    0 <= t,
            ;
            lemma_div_pos_is_pos((65536 - (a as int)) * t, 65536);
            lemma_div_pos_is_pos((a as int) * t, 65536);
            lemma_div_is_ordered((65536 - (a as int)) * t, 65536 * t, 65536);
            lemma_div_is_ordered((a as int) * t, 65536 * t, 65536);
            lemma_div_multiples_vanish(t, 65536);
        }
        let st = sin_fx(theta);
        if st <= 0 {
            nlerp(q1, qb, a)
        } else {
            let s1 = sin_fx(ang1);
            let s2 = sin_fx(ang2);
            let w1 = div_entry(s1, st);
            let w2 = div_entry(s2, st);
            q1.combine(w1, qb, w2).normalize()
        }
    }
}

/// Spherical linear interpolation along the shortest arc.
pub fn slerp(q1: &Quat, q2: &Quat, a: i64) -> (r: Quat)
    requires
        quat_wf(q1@),
        quat_wf(q2@),
    ensures
        r@ == slerp_val(q1@, q2@, a as int),
        quat_wf(r@),
{
    let d0 = q1.dot(q2);
    if a <= 0 {
        *q1
    } else if a >= FX_ONE {
        if d0 < 0 {
            q2.neg()
        } else {
            *q2
        }
    } else if d0 < 0 {
        let qb = q2.neg();
        slerp_core(q1, &qb, -d0, a)
    } else {
        slerp_core(q1, q2, d0, a)
    }
}

/// The shortest rotation carrying one direction onto another.
pub fn from_arc(src: &Vec3, dst: &Vec3) -> (r: Quat)
    requires
        vec_wf(src@),
        vec_wf(dst@),
    ensures
        r@ == from_arc_val(src@, dst@),
        quat_wf(r@),
{
    let m2a = src.dot(src);
    let m2b = dst.dot(dst);
    let mag0 = fx_sqrt(scale_entry(mul_lim(m2a, m2b)));
    let mag = if mag0 > MAT_LIM {
        MAT_LIM
    } else {
        mag0
    };
    let d = src.dot(dst);
    if d >= mag - ARC_EPS_FX {
        Quat::identity()
    } else if d <= -mag + ARC_EPS_FX {
        let ux = Vec3 { x: FX_ONE, y: 0, z: 0 };
        let v1 = ux.cross(src);
        let n1 = v1.norm();
        let ax = if n1 == 0 {
            let uy = Vec3 { x: 0, y: FX_ONE, z: 0 };
            uy.cross(src).normalize()
        } else {
            v1.normalize()
        };
        Quat { s: 0, x: ax.x, y: ax.y, z: ax.z }
    } else {
        let c = src.cross(dst);
        let q = Quat { s: add_lim(mag, d), x: c.x, y: c.y, z: c.z };
        q.normalize()
    }
}

/// A fraction of the shortest rotation from `src` toward `dst`, applied
/// to `src`.
pub fn rotate_toward(src: &Vec3, dst: &Vec3, a: i64) -> (r: Vec3)
    requires
        vec_wf(src@),
        vec_wf(dst@),
    ensures
        r@ == rotate_toward_val(src@, dst@, a as int),
        vec_wf(r@),
{
    let arc = from_arc(src, dst);
    let ident = Quat::identity();
    let part = slerp(&ident, &arc, a);
    part.rotate(src)
}

} // verus!
