//! 3-vectors and quaternions over 16.16 fixed-point scalars.
//!
//! The sampler carries a joint's rotation as a quaternion and its
//! translation as a unit direction with a length; the operations here —
//! dot and cross products, norms, normalisation, the shortest-arc
//! quaternion between two directions, and rotating a vector by a
//! quaternion — are the pieces those interpolations are built from.

use vstd::prelude::*;

verus! {

use crate::fixed::{fx_sqrt, fx_sqrt_val, isqrt_val, isqrt_u128, lemma_isqrt_unique, FX_HALF, FX_ONE};
use crate::linalg::{
    add_lim, clampv, div_entry, dot4, in_lim, mat_wf, mul_lim, scale_entry, scaled, sub_lim,
    Mat4, Mat4v, MAT_LIM,
};

/// A 3-vector of fixed-point components.
#[derive(Clone, Copy, Debug, PartialEq, Eq, Structural)]
pub struct Vec3 {
    pub x: i64,
    pub y: i64,
    pub z: i64,
}

/// The mathematical view of a 3-vector.
pub ghost struct Vec3v {
    pub x: int,
    pub y: int,
    pub z: int,
}

impl View for Vec3 {
    type V = Vec3v;

    open spec fn view(&self) -> Vec3v {
        Vec3v { x: self.x as int, y: self.y as int, z: self.z as int }
    }
}

/// A quaternion `s + x·i + y·j + z·k` of fixed-point components.
#[derive(Clone, Copy, Debug, PartialEq, Eq, Structural)]
pub struct Quat {
    pub s: i64,
    pub x: i64,
    pub y: i64,
    pub z: i64,
}

/// The mathematical view of a quaternion.
pub ghost struct Quatv {
    pub s: int,
    pub x: int,
    pub y: int,
    pub z: int,
}

impl View for Quat {
    type V = Quatv;

    open spec fn view(&self) -> Quatv {
        Quatv { s: self.s as int, x: self.x as int, y: self.y as int, z: self.z as int }
    }
}

/// All components within the stored bound.
pub open spec fn vec_wf(v: Vec3v) -> bool {
    in_lim(v.x) && in_lim(v.y) && in_lim(v.z)
}

/// All components within the stored bound.
pub open spec fn quat_wf(q: Quatv) -> bool {
    in_lim(q.s) && in_lim(q.x) && in_lim(q.y) && in_lim(q.z)
}

/// The unscaled sum of squared components.
pub open spec fn vnorm_sq(v: Vec3v) -> int {
    v.x * v.x + v.y * v.y + v.z * v.z
}

/// The fixed-point Euclidean norm: the integer square root of the
/// unscaled square sum is again a 16.16 value.
pub open spec fn vnorm_val(v: Vec3v) -> int {
    isqrt_val(vnorm_sq(v))
}

/// The unscaled sum of squared components.
pub open spec fn qnorm_sq(q: Quatv) -> int {
    q.s * q.s + q.x * q.x + q.y * q.y + q.z * q.z
}

/// The fixed-point norm of a quaternion.
pub open spec fn qnorm_val(q: Quatv) -> int {
    isqrt_val(qnorm_sq(q))
}

/// The scaled dot product of two vectors.
pub open spec fn vdot_val(a: Vec3v, b: Vec3v) -> int {
    scaled(a.x * b.x + a.y * b.y + a.z * b.z)
}

/// The scaled dot product of two quaternions.
pub open spec fn qdot_val(a: Quatv, b: Quatv) -> int {
    scaled(a.s * b.s + a.x * b.x + a.y * b.y + a.z * b.z)
}

/// The scaled cross product.
pub open spec fn vcross_val(a: Vec3v, b: Vec3v) -> Vec3v {
    Vec3v {
        x: scaled(a.y * b.z - a.z * b.y),
        y: scaled(a.z * b.x - a.x * b.z),
        z: scaled(a.x * b.y - a.y * b.x),
    }
}

/// Division of every component by a norm, or the vector unchanged when
/// the norm is not positive.
pub open spec fn vnormalize_val(v: Vec3v) -> Vec3v {
    let n = vnorm_val(v);
    if n <= 0 {
        v
    } else {
        Vec3v {
            x: clampv((v.x * FX_ONE as int) / n),
            y: clampv((v.y * FX_ONE as int) / n),
            z: clampv((v.z * FX_ONE as int) / n),
        }
    }
}

/// Division of every component by a norm, or the quaternion unchanged
/// when the norm is not positive.
pub open spec fn qnormalize_val(q: Quatv) -> Quatv {
    let n = qnorm_val(q);
    if n <= 0 {
        q
    } else {
        Quatv {
            s: clampv((q.s * FX_ONE as int) / n),
            x: clampv((q.x * FX_ONE as int) / n),
            y: clampv((q.y * FX_ONE as int) / n),
            z: clampv((q.z * FX_ONE as int) / n),
        }
    }
}

/// Component-wise negation.
pub open spec fn qneg_val(q: Quatv) -> Quatv {
    Quatv { s: -q.s, x: -q.x, y: -q.y, z: -q.z }
}

/// The weighted combination `wa·a + wb·b`, each component scaled once.
pub open spec fn qcombine_val(a: Quatv, wa: int, b: Quatv, wb: int) -> Quatv {
    Quatv {
        s: scaled(a.s * wa + b.s * wb),
        x: scaled(a.x * wa + b.x * wb),
        y: scaled(a.y * wa + b.y * wb),
        z: scaled(a.z * wa + b.z * wb),
    }
}

/// Scaling a vector by a fixed-point factor.
pub open spec fn vscale_val(v: Vec3v, k: int) -> Vec3v {
    Vec3v { x: scaled(v.x * k), y: scaled(v.y * k), z: scaled(v.z * k) }
}

/// The vector part of a quaternion.
pub open spec fn qvec_val(q: Quatv) -> Vec3v {
    Vec3v { x: q.x, y: q.y, z: q.z }
}

/// Clamped component-wise sum.
pub open spec fn vadd_val(a: Vec3v, b: Vec3v) -> Vec3v {
    Vec3v { x: clampv(a.x + b.x), y: clampv(a.y + b.y), z: clampv(a.z + b.z) }
}

/// Rotation of a vector by a quaternion:
/// `v + 2s·(u × v) + 2·(u × (u × v))` for vector part `u`, every product
/// scaled as it is formed.
pub open spec fn qrot_val(q: Quatv, v: Vec3v) -> Vec3v {
    let t = vcross_val(qvec_val(q), v);
    let u = vcross_val(qvec_val(q), t);
    let w = Vec3v {
        x: scaled(2 * (q.s * t.x)),
        y: scaled(2 * (q.s * t.y)),
        z: scaled(2 * (q.s * t.z)),
    };
    let d = Vec3v { x: clampv(u.x + u.x), y: clampv(u.y + u.y), z: clampv(u.z + u.z) };
    vadd_val(vadd_val(v, w), d)
}

/// A squared component at full precision.
fn sq_lim(a: i64) -> (p: i128)
    requires
        in_lim(a as int),
    ensures
        p as int == a as int * a as int,
        0 <= p as int <= MAT_LIM as int * MAT_LIM as int,
{
    proof {
        assert(0 <= a as int * a as int <= MAT_LIM as int * MAT_LIM as int)
            by (nonlinear_arith)
            requires
                -(MAT_LIM as int) <= a as int <= MAT_LIM as int,
        ;
    }
    (a as i128) * (a as i128)
}

/// One cross-product component: a scaled difference of two products.
fn cross_term(a1: i64, b1: i64, a2: i64, b2: i64) -> (r: i64)
    requires
        in_lim(a1 as int) && in_lim(b1 as int),
        in_lim(a2 as int) && in_lim(b2 as int),
    ensures
        r as int == scaled(a1 as int * b1 as int - a2 as int * b2 as int),
        in_lim(r as int),
{
    let p: i128 = mul_lim(a1, b1) - mul_lim(a2, b2);
    scale_entry(p)
}

impl Vec3 {
    /// The zero vector.
    pub fn zero() -> (r: Vec3)
        ensures
            r@ == (Vec3v { x: 0, y: 0, z: 0 }),
            vec_wf(r@),
    {
        Vec3 { x: 0, y: 0, z: 0 }
    }

    /// Are all components within the stored bound?
    pub fn is_wf(&self) -> (r: bool)
        ensures
            r == vec_wf(self@),
    {
        -MAT_LIM <= self.x && self.x <= MAT_LIM && -MAT_LIM <= self.y && self.y <= MAT_LIM
            && -MAT_LIM <= self.z && self.z <= MAT_LIM
    }

    /// The scaled dot product.
    pub fn dot(&self, b: &Vec3) -> (r: i64)
        requires
            vec_wf(self@),
            vec_wf(b@),
        ensures
            r as int == vdot_val(self@, b@),
            in_lim(r as int),
    {
        dot4(self.x, b.x, self.y, b.y, self.z, b.z, 0, 0)
    }

    /// The scaled cross product.
    pub fn cross(&self, b: &Vec3) -> (r: Vec3)
        requires
            vec_wf(self@),
            vec_wf(b@),
        ensures
            r@ == vcross_val(self@, b@),
            vec_wf(r@),
    {
        Vec3 {
            x: cross_term(self.y, b.z, self.z, b.y),
            y: cross_term(self.z, b.x, self.x, b.z),
            z: cross_term(self.x, b.y, self.y, b.x),
        }
    }

    /// The fixed-point Euclidean norm.
    pub fn norm(&self) -> (r: i64)
        requires
            vec_wf(self@),
        ensures
            r as int == vnorm_val(self@),
            0 <= r as int <= 2 * MAT_LIM as int,
    {
        let p: i128 = sq_lim(self.x) + sq_lim(self.y) + sq_lim(self.z);
        let root = isqrt_u128(p as u128);
        proof {
            lemma_isqrt_unique(p as int, root as int);
            assert(root as int <= 2 * MAT_LIM as int) by (nonlinear_arith)
                requires
                    0 <= root as int,
                    (root as int) * (root as int) <= p as int,
                    p as int <= 3 * (MAT_LIM as int * MAT_LIM as int),
            ;
        }
        root as i64
    }

    /// The normalised vector, or the vector unchanged when its norm is
    /// not positive.
    pub fn normalize(&self) -> (r: Vec3)
        requires
            vec_wf(self@),
        ensures
            r@ == vnormalize_val(self@),
            vec_wf(r@),
    {
        let n = self.norm();
        if n <= 0 {
            *self
        } else {
            Vec3 {
                x: div_entry(self.x, n),
                y: div_entry(self.y, n),
                z: div_entry(self.z, n),
            }
        }
    }

    /// The vector scaled by a fixed-point factor.
    pub fn scale(&self, k: i64) -> (r: Vec3)
        requires
            vec_wf(self@),
            in_lim(k as int),
        ensures
            r@ == vscale_val(self@, k as int),
            vec_wf(r@),
    {
        Vec3 {
            x: scale_entry(mul_lim(self.x, k)),
            y: scale_entry(mul_lim(self.y, k)),
            z: scale_entry(mul_lim(self.z, k)),
        }
    }

    /// Clamped component-wise sum.
    pub fn plus(&self, b: &Vec3) -> (r: Vec3)
        requires
            vec_wf(self@),
            vec_wf(b@),
        ensures
            r@ == vadd_val(self@, b@),
            vec_wf(r@),
    {
        Vec3 {
            x: add_lim(self.x, b.x),
            y: add_lim(self.y, b.y),
            z: add_lim(self.z, b.z),
        }
    }
}

impl Quat {
    /// The identity rotation.
    pub fn identity() -> (r: Quat)
        ensures
            r@ == (Quatv { s: FX_ONE as int, x: 0, y: 0, z: 0 }),
            quat_wf(r@),
    {
        Quat { s: FX_ONE, x: 0, y: 0, z: 0 }
    }

    /// Are all components within the stored bound?
    pub fn is_wf(&self) -> (r: bool)
        ensures
            r == quat_wf(self@),
    {
        -MAT_LIM <= self.s && self.s <= MAT_LIM && -MAT_LIM <= self.x && self.x <= MAT_LIM
            && -MAT_LIM <= self.y && self.y <= MAT_LIM && -MAT_LIM <= self.z && self.z
            <= MAT_LIM
    }

    /// The scaled dot product.
    pub fn dot(&self, b: &Quat) -> (r: i64)
        requires
            quat_wf(self@),
            quat_wf(b@),
        ensures
            r as int == qdot_val(self@, b@),
            in_lim(r as int),
    {
        dot4(self.s, b.s, self.x, b.x, self.y, b.y, self.z, b.z)
    }

    /// Component-wise negation.
    pub fn neg(&self) -> (r: Quat)
        requires
            quat_wf(self@),
        ensures
            r@ == qneg_val(self@),
            quat_wf(r@),
    {
        Quat { s: -self.s, x: -self.x, y: -self.y, z: -self.z }
    }

    /// The fixed-point norm.
    pub fn norm(&self) -> (r: i64)
        requires
            quat_wf(self@),
        ensures
            r as int == qnorm_val(self@),
            0 <= r as int <= 2 * MAT_LIM as int,
    {
        let p: i128 = sq_lim(self.s) + sq_lim(self.x) + sq_lim(self.y) + sq_lim(self.z);
        let root = isqrt_u128(p as u128);
        proof {
            lemma_isqrt_unique(p as int, root as int);
            assert(root as int <= 2 * MAT_LIM as int) by (nonlinear_arith)
                requires
                    0 <= root as int,
                    (root as int) * (root as int) <= p as int,
                    p as int <= 4 * (MAT_LIM as int * MAT_LIM as int),
            ;
        }
        root as i64
    }

    /// The normalised quaternion, or the quaternion unchanged when its
    /// norm is not positive.
    pub fn normalize(&self) -> (r: Quat)
        requires
            quat_wf(self@),
        ensures
            r@ == qnormalize_val(self@),
            quat_wf(r@),
    {
        let n = self.norm();
        if n <= 0 {
            *self
        } else {
            Quat {
                s: div_entry(self.s, n),
                x: div_entry(self.x, n),
                y: div_entry(self.y, n),
                z: div_entry(self.z, n),
            }
        }
    }

    /// The weighted combination `wa·self + wb·b`.
    pub fn combine(&self, wa: i64, b: &Quat, wb: i64) -> (r: Quat)
        requires
            quat_wf(self@),
            quat_wf(b@),
            in_lim(wa as int),
            in_lim(wb as int),
        ensures
            r@ == qcombine_val(self@, wa as int, b@, wb as int),
            quat_wf(r@),
    {
        Quat {
            s: dot4(self.s, wa, b.s, wb, 0, 0, 0, 0),
            x: dot4(self.x, wa, b.x, wb, 0, 0, 0, 0),
            y: dot4(self.y, wa, b.y, wb, 0, 0, 0, 0),
            z: dot4(self.z, wa, b.z, wb, 0, 0, 0, 0),
        }
    }

    /// The vector part.
    pub fn vec_part(&self) -> (r: Vec3)
        ensures
            r@ == qvec_val(self@),
    {
        Vec3 { x: self.x, y: self.y, z: self.z }
    }

    /// Rotate a vector by this quaternion.
    pub fn rotate(&self, v: &Vec3) -> (r: Vec3)
        requires
            quat_wf(self@),
            vec_wf(v@),
        ensures
            r@ == qrot_val(self@, v@),
            vec_wf(r@),
    {
        let u = self.vec_part();
        let t = u.cross(v);
        let t2 = u.cross(&t);
        let w = Vec3 {
            x: scale_entry(2 * mul_lim(self.s, t.x)),
            y: scale_entry(2 * mul_lim(self.s, t.y)),
            z: scale_entry(2 * mul_lim(self.s, t.z)),
        };
        let d = Vec3 {
            x: add_lim(t2.x, t2.x),
            y: add_lim(t2.y, t2.y),
            z: add_lim(t2.z, t2.z),
        };
        v.plus(&w).plus(&d)
    }
}

/// The rotation matrix of a quaternion with a translation in the fourth
/// column, every product scaled and clamped as it is formed.
pub open spec fn rot_mat_val(q: Quatv, t: Vec3v) -> Mat4v {
    let x2 = clampv(q.x + q.x);
    let y2 = clampv(q.y + q.y);
    let z2 = clampv(q.z + q.z);
    let xx2 = scaled(x2 * q.x);
    let xy2 = scaled(x2 * q.y);
    let xz2 = scaled(x2 * q.z);
    let yy2 = scaled(y2 * q.y);
    let yz2 = scaled(y2 * q.z);
    let zz2 = scaled(z2 * q.z);
    let sx2 = scaled(x2 * q.s);
    let sy2 = scaled(y2 * q.s);
    let sz2 = scaled(z2 * q.s);
    Mat4v {
        m00: clampv(clampv(FX_ONE as int - yy2) - zz2),
        m01: clampv(xy2 - sz2),
        m02: clampv(xz2 + sy2),
        m03: t.x,
        m10: clampv(xy2 + sz2),
        m11: clampv(clampv(FX_ONE as int - xx2) - zz2),
        m12: clampv(yz2 - sx2),
        m13: t.y,
        m20: clampv(xz2 - sy2),
        m21: clampv(yz2 + sx2),
        m22: clampv(clampv(FX_ONE as int - xx2) - yy2),
        m23: t.z,
        m30: 0,
        m31: 0,
        m32: 0,
        m33: FX_ONE as int,
    }
}

/// The quaternion of a rotation matrix's upper 3x3 block, by the
/// largest-pivot branches; the identity when the pivot square root
/// degenerates to zero.
pub open spec fn mat_quat_val(m: Mat4v) -> Quatv {
    let trace = clampv(clampv(m.m00 + m.m11) + m.m22);
    if trace >= 0 {
        let sq = clampv(fx_sqrt_val(clampv(trace + FX_ONE as int)));
        if sq <= 0 {
            Quatv { s: FX_ONE as int, x: 0, y: 0, z: 0 }
        } else {
            let inv = clampv((FX_HALF as int * FX_ONE as int) / sq);
            Quatv {
                s: scaled(FX_HALF as int * sq),
                x: scaled(clampv(m.m21 - m.m12) * inv),
                y: scaled(clampv(m.m02 - m.m20) * inv),
                z: scaled(clampv(m.m10 - m.m01) * inv),
            }
        }
    } else if m.m00 > m.m11 && m.m00 > m.m22 {
        let sq = clampv(fx_sqrt_val(clampv(clampv(clampv(m.m00 - m.m11) - m.m22) + FX_ONE as int)));
        if sq <= 0 {
            Quatv { s: FX_ONE as int, x: 0, y: 0, z: 0 }
        } else {
            let inv = clampv((FX_HALF as int * FX_ONE as int) / sq);
            Quatv {
                s: scaled(clampv(m.m21 - m.m12) * inv),
                x: scaled(FX_HALF as int * sq),
                y: scaled(clampv(m.m10 + m.m01) * inv),
                z: scaled(clampv(m.m02 + m.m20) * inv),
            }
        }
    } else if m.m11 > m.m22 {
        let sq = clampv(fx_sqrt_val(clampv(clampv(clampv(m.m11 - m.m00) - m.m22) + FX_ONE as int)));
        if sq <= 0 {
            Quatv { s: FX_ONE as int, x: 0, y: 0, z: 0 }
        } else {
            let inv = clampv((FX_HALF as int * FX_ONE as int) / sq);
            Quatv {
                s: scaled(clampv(m.m02 - m.m20) * inv),
                x: scaled(clampv(m.m10 + m.m01) * inv),
                y: scaled(FX_HALF as int * sq),
                z: scaled(clampv(m.m12 + m.m21) * inv),
            }
        }
    } else {
        let sq = clampv(fx_sqrt_val(clampv(clampv(clampv(m.m22 - m.m00) - m.m11) + FX_ONE as int)));
        if sq <= 0 {
            Quatv { s: FX_ONE as int, x: 0, y: 0, z: 0 }
        } else {
            let inv = clampv((FX_HALF as int * FX_ONE as int) / sq);
            Quatv {
                s: scaled(clampv(m.m10 - m.m01) * inv),
                x: scaled(clampv(m.m02 + m.m20) * inv),
                y: scaled(clampv(m.m12 + m.m21) * inv),
                z: scaled(FX_HALF as int * sq),
            }
        }
    }
}

/// The pivot square root of one branch: clamped so later products stay
/// bounded.
fn pivot_sqrt(arg: i64) -> (r: i64)
    ensures
        r as int == clampv(fx_sqrt_val(arg as int)),
        0 <= r as int <= MAT_LIM as int,
{
    let s0 = fx_sqrt(arg);
    if s0 > MAT_LIM {
        MAT_LIM
    } else {
        s0
    }
}

impl Quat {
    /// The homogeneous transform of this rotation with a translation.
    pub fn to_matrix(&self, t: &Vec3) -> (r: Mat4)
        requires
            quat_wf(self@),
            vec_wf(t@),
        ensures
            r@ == rot_mat_val(self@, t@),
            mat_wf(r@),
    {
        let x2 = add_lim(self.x, self.x);
        let y2 = add_lim(self.y, self.y);
        let z2 = add_lim(self.z, self.z);
        let xx2 = scale_entry(mul_lim(x2, self.x));
        let xy2 = scale_entry(mul_lim(x2, self.y));
        let xz2 = scale_entry(mul_lim(x2, self.z));
        let yy2 = scale_entry(mul_lim(y2, self.y));
        let yz2 = scale_entry(mul_lim(y2, self.z));
        let zz2 = scale_entry(mul_lim(z2, self.z));
        let sx2 = scale_entry(mul_lim(x2, self.s));
        let sy2 = scale_entry(mul_lim(y2, self.s));
        let sz2 = scale_entry(mul_lim(z2, self.s));
        Mat4 {
            m00: sub_lim(sub_lim(FX_ONE, yy2), zz2),
            m01: sub_lim(xy2, sz2),
            m02: add_lim(xz2, sy2),
            m03: t.x,
            m10: add_lim(xy2, sz2),
            m11: sub_lim(sub_lim(FX_ONE, xx2), zz2),
            m12: sub_lim(yz2, sx2),
            m13: t.y,
            m20: sub_lim(xz2, sy2),
            m21: add_lim(yz2, sx2),
            m22: sub_lim(sub_lim(FX_ONE, xx2), yy2),
            m23: t.z,
            m30: 0,
            m31: 0,
            m32: 0,
            m33: FX_ONE,
        }
    }

    /// The rotation read back from a matrix's upper 3x3 block.
    pub fn from_matrix(m: &Mat4) -> (r: Quat)
        requires
            mat_wf(m@),
        ensures
            r@ == mat_quat_val(m@),
            quat_wf(r@),
    {
        let trace = add_lim(add_lim(m.m00, m.m11), m.m22);
        if trace >= 0 {
            let sq = pivot_sqrt(add_lim(trace, FX_ONE));
            if sq <= 0 {
                Quat::identity()
            } else {
                let inv = div_entry(FX_HALF, sq);
                Quat {
                    s: scale_entry(mul_lim(FX_HALF, sq)),
                    x: scale_entry(mul_lim(sub_lim(m.m21, m.m12), inv)),
                    y: scale_entry(mul_lim(sub_lim(m.m02, m.m20), inv)),
                    z: scale_entry(mul_lim(sub_lim(m.m10, m.m01), inv)),
                }
            }
        } else if m.m00 > m.m11 && m.m00 > m.m22 {
            let sq = pivot_sqrt(add_lim(sub_lim(sub_lim(m.m00, m.m11), m.m22), FX_ONE));
            if sq <= 0 {
                Quat::identity()
            } else {
                let inv = div_entry(FX_HALF, sq);
                Quat {
                    s: scale_entry(mul_lim(sub_lim(m.m21, m.m12), inv)),
                    x: scale_entry(mul_lim(FX_HALF, sq)),
                    y: scale_entry(mul_lim(add_lim(m.m10, m.m01), inv)),
                    z: scale_entry(mul_lim(add_lim(m.m02, m.m20), inv)),
                }
            }
        } else if m.m11 > m.m22 {
            let sq = pivot_sqrt(add_lim(sub_lim(sub_lim(m.m11, m.m00), m.m22), FX_ONE));
            if sq <= 0 {
                Quat::identity()
            } else {
                let inv = div_entry(FX_HALF, sq);
                Quat {
                    s: scale_entry(mul_lim(sub_lim(m.m02, m.m20), inv)),
                    x: scale_entry(mul_lim(add_lim(m.m10, m.m01), inv)),
                    y: scale_entry(mul_lim(FX_HALF, sq)),
                    z: scale_entry(mul_lim(add_lim(m.m12, m.m21), inv)),
                }
            }
        } else {
            let sq = pivot_sqrt(add_lim(sub_lim(sub_lim(m.m22, m.m00), m.m11), FX_ONE));
            if sq <= 0 {
                Quat::identity()
            } else {
                let inv = div_entry(FX_HALF, sq);
                Quat {
                    s: scale_entry(mul_lim(sub_lim(m.m10, m.m01), inv)),
                    x: scale_entry(mul_lim(add_lim(m.m02, m.m20), inv)),
                    y: scale_entry(mul_lim(add_lim(m.m12, m.m21), inv)),
                    z: scale_entry(mul_lim(FX_HALF, sq)),
                }
            }
        }
    }
}

} // verus!
