//! Vectors, quaternions and 4x4 matrices over 16.16 fixed-point scalars.
//!
//! Matrices act on column vectors; the translation of a transform sits in
//! the fourth column. Every arithmetic result is scaled back by `FX_ONE`
//! with a floor and clamped into `[-MAT_LIM, MAT_LIM]`, so all operations
//! are total and each is pinned by a spec function on the `int` view.

use vstd::prelude::*;

verus! {

use crate::fixed::{floor_div_i128, FX_ONE};

/// Bound on the magnitude of every stored component.
pub const MAT_LIM: i64 = 1099511627776;

/// Is a component within the stored bound?
pub open spec fn in_lim(x: int) -> bool {
    -MAT_LIM as int <= x <= MAT_LIM as int
}

/// Clamp into the component bound.
pub open spec fn clampv(x: int) -> int {
    if x > MAT_LIM as int {
        MAT_LIM as int
    } else if x < -MAT_LIM as int {
        -MAT_LIM as int
    } else {
        x
    }
}

/// Scale an accumulated product sum back by `FX_ONE` and clamp it.
pub open spec fn scaled(p: int) -> int {
    clampv(p / (FX_ONE as int))
}

/// A 4x4 transform over fixed-point scalars, row `r`, column `c` in
/// `mRC`.
#[derive(Clone, Copy, Debug, PartialEq, Eq, Structural)]
pub struct Mat4 {
    pub m00: i64,
    pub m01: i64,
    pub m02: i64,
    pub m03: i64,
    pub m10: i64,
    pub m11: i64,
    pub m12: i64,
    pub m13: i64,
    pub m20: i64,
    pub m21: i64,
    pub m22: i64,
    pub m23: i64,
    pub m30: i64,
    pub m31: i64,
    pub m32: i64,
    pub m33: i64,
}

/// The mathematical view of a matrix: the same entries as unbounded
/// integers.
pub ghost struct Mat4v {
    pub m00: int,
    pub m01: int,
    pub m02: int,
    pub m03: int,
    pub m10: int,
    pub m11: int,
    pub m12: int,
    pub m13: int,
    pub m20: int,
    pub m21: int,
    pub m22: int,
    pub m23: int,
    pub m30: int,
    pub m31: int,
    pub m32: int,
    pub m33: int,
}

impl View for Mat4 {
    type V = Mat4v;

    open spec fn view(&self) -> Mat4v {
        Mat4v {
            m00: self.m00 as int,
            m01: self.m01 as int,
            m02: self.m02 as int,
            m03: self.m03 as int,
            m10: self.m10 as int,
            m11: self.m11 as int,
            m12: self.m12 as int,
            m13: self.m13 as int,
            m20: self.m20 as int,
            m21: self.m21 as int,
            m22: self.m22 as int,
            m23: self.m23 as int,
            m30: self.m30 as int,
            m31: self.m31 as int,
            m32: self.m32 as int,
            m33: self.m33 as int,
        }
    }
}

/// All entries within the component bound.
pub open spec fn mat_wf(m: Mat4v) -> bool {
    in_lim(m.m00) &&
    in_lim(m.m01) &&
    in_lim(m.m02) &&
    in_lim(m.m03) &&
    in_lim(m.m10) &&
    in_lim(m.m11) &&
    in_lim(m.m12) &&
    in_lim(m.m13) &&
    in_lim(m.m20) &&
    in_lim(m.m21) &&
    in_lim(m.m22) &&
    in_lim(m.m23) &&
    in_lim(m.m30) &&
    in_lim(m.m31) &&
    in_lim(m.m32) &&
    in_lim(m.m33)
}

/// The matrix product: each entry accumulates the four products at full
/// precision, then is scaled and clamped once.
pub open spec fn mv_mul(a: Mat4v, b: Mat4v) -> Mat4v {
    Mat4v {
        m00: scaled(a.m00 * b.m00 + a.m01 * b.m10 + a.m02 * b.m20 + a.m03 * b.m30),
        m01: scaled(a.m00 * b.m01 + a.m01 * b.m11 + a.m02 * b.m21 + a.m03 * b.m31),
        m02: scaled(a.m00 * b.m02 + a.m01 * b.m12 + a.m02 * b.m22 + a.m03 * b.m32),
        m03: scaled(a.m00 * b.m03 + a.m01 * b.m13 + a.m02 * b.m23 + a.m03 * b.m33),
        m10: scaled(a.m10 * b.m00 + a.m11 * b.m10 + a.m12 * b.m20 + a.m13 * b.m30),
        m11: scaled(a.m10 * b.m01 + a.m11 * b.m11 + a.m12 * b.m21 + a.m13 * b.m31),
        m12: scaled(a.m10 * b.m02 + a.m11 * b.m12 + a.m12 * b.m22 + a.m13 * b.m32),
        m13: scaled(a.m10 * b.m03 + a.m11 * b.m13 + a.m12 * b.m23 + a.m13 * b.m33),
        m20: scaled(a.m20 * b.m00 + a.m21 * b.m10 + a.m22 * b.m20 + a.m23 * b.m30),
        m21: scaled(a.m20 * b.m01 + a.m21 * b.m11 + a.m22 * b.m21 + a.m23 * b.m31),
        m22: scaled(a.m20 * b.m02 + a.m21 * b.m12 + a.m22 * b.m22 + a.m23 * b.m32),
        m23: scaled(a.m20 * b.m03 + a.m21 * b.m13 + a.m22 * b.m23 + a.m23 * b.m33),
        m30: scaled(a.m30 * b.m00 + a.m31 * b.m10 + a.m32 * b.m20 + a.m33 * b.m30),
        m31: scaled(a.m30 * b.m01 + a.m31 * b.m11 + a.m32 * b.m21 + a.m33 * b.m31),
        m32: scaled(a.m30 * b.m02 + a.m31 * b.m12 + a.m32 * b.m22 + a.m33 * b.m32),
        m33: scaled(a.m30 * b.m03 + a.m31 * b.m13 + a.m32 * b.m23 + a.m33 * b.m33),
    }
}

/// The transpose.
pub open spec fn mv_transpose(a: Mat4v) -> Mat4v {
    Mat4v {
        m00: a.m00,
        m01: a.m10,
        m02: a.m20,
        m03: a.m30,
        m10: a.m01,
        m11: a.m11,
        m12: a.m21,
        m13: a.m31,
        m20: a.m02,
        m21: a.m12,
        m22: a.m22,
        m23: a.m32,
        m30: a.m03,
        m31: a.m13,
        m32: a.m23,
        m33: a.m33,
    }
}

/// The identity transform.
pub open spec fn mv_identity() -> Mat4v {
    Mat4v {
        m00: FX_ONE as int,
        m01: 0,
        m02: 0,
        m03: 0,
        m10: 0,
        m11: FX_ONE as int,
        m12: 0,
        m13: 0,
        m20: 0,
        m21: 0,
        m22: FX_ONE as int,
        m23: 0,
        m30: 0,
        m31: 0,
        m32: 0,
        m33: FX_ONE as int,
    }
}

/// Clamp an `i128` into the component bound.
pub fn clamp_lim(q: i128) -> (r: i64)
    ensures
        r as int == clampv(q as int),
{
    if q > MAT_LIM as i128 {
        MAT_LIM
    } else if q < -(MAT_LIM as i128) {
        -MAT_LIM
    } else {
        q as i64
    }
}

/// Scale an accumulated product sum back by `FX_ONE` and clamp it.
pub fn scale_entry(p: i128) -> (r: i64)
    ensures
        r as int == scaled(p as int),
        in_lim(r as int),
{
    let q = floor_div_i128(p, 65536);
    clamp_lim(q)
}

/// `floor(a * FX_ONE / d)` for a positive divisor, clamped: one
/// component of a division by a scalar.
pub fn div_entry(a: i64, d: i64) -> (r: i64)
    requires
        0 < d,
    ensures
        r as int == clampv((a as int * FX_ONE as int) / d as int),
        in_lim(r as int),
{
    proof {
        assert(i128::MIN as int <= a as int * 65536 <= i128::MAX as int)
            by (nonlinear_arith)
            requires
                i64::MIN as int <= a as int <= i64::MAX as int,
        ;
    }
    let p: i128 = (a as i128) * 65536;
    let q = floor_div_i128(p, d as i128);
    clamp_lim(q)
}

/// A clamped sum of two bounded components.
pub fn add_lim(a: i64, b: i64) -> (r: i64)
    requires
        in_lim(a as int),
        -(2 * MAT_LIM as int) <= b as int <= 2 * MAT_LIM as int,
    ensures
        r as int == clampv(a as int + b as int),
        in_lim(r as int),
{
    let s: i128 = (a as i128) + (b as i128);
    clamp_lim(s)
}

/// A clamped difference of two bounded components.
pub fn sub_lim(a: i64, b: i64) -> (r: i64)
    requires
        -(2 * MAT_LIM as int) <= a as int <= 2 * MAT_LIM as int,
        in_lim(b as int),
    ensures
        r as int == clampv(a as int - b as int),
        in_lim(r as int),
{
    let s: i128 = (a as i128) - (b as i128);
    clamp_lim(s)
}

/// A full-precision product of two bounded components.
pub fn mul_lim(a: i64, b: i64) -> (p: i128)
    requires
        in_lim(a as int),
        in_lim(b as int),
    ensures
        p as int == a as int * b as int,
        -(MAT_LIM as int * MAT_LIM as int) <= p as int <= MAT_LIM as int * MAT_LIM as int,
{
    proof {
        assert(-(MAT_LIM as int * MAT_LIM as int) <= a as int * b as int
            <= MAT_LIM as int * MAT_LIM as int) by (nonlinear_arith)
            requires
                -(MAT_LIM as int) <= a as int <= MAT_LIM as int,
                -(MAT_LIM as int) <= b as int <= MAT_LIM as int,
        ;
    }
    (a as i128) * (b as i128)
}

/// One entry of a matrix product: a scaled four-term dot product.
pub fn dot4(a0: i64, b0: i64, a1: i64, b1: i64, a2: i64, b2: i64, a3: i64, b3: i64) -> (r: i64)
    requires
        in_lim(a0 as int) && in_lim(b0 as int),
        in_lim(a1 as int) && in_lim(b1 as int),
        in_lim(a2 as int) && in_lim(b2 as int),
        in_lim(a3 as int) && in_lim(b3 as int),
    ensures
        r as int == scaled(
            a0 as int * b0 as int + a1 as int * b1 as int + a2 as int * b2 as int
                + a3 as int * b3 as int,
        ),
        in_lim(r as int),
{
    let p: i128 = mul_lim(a0, b0) + mul_lim(a1, b1) + mul_lim(a2, b2) + mul_lim(a3, b3);
    scale_entry(p)
}

impl Mat4 {
    /// The identity transform.
    pub fn identity() -> (r: Mat4)
        ensures
            r@ == mv_identity(),
            mat_wf(r@),
    {
        Mat4 {
        m00: FX_ONE,
        m01: 0,
        m02: 0,
        m03: 0,
        m10: 0,
        m11: FX_ONE,
        m12: 0,
        m13: 0,
        m20: 0,
        m21: 0,
        m22: FX_ONE,
        m23: 0,
        m30: 0,
        m31: 0,
        m32: 0,
        m33: FX_ONE,
        }
    }

    /// The matrix product `self * b`.
    pub fn mul_mat(&self, b: &Mat4) -> (r: Mat4)
        requires
            mat_wf(self@),
            mat_wf(b@),
        ensures
            r@ == mv_mul(self@, b@),
            mat_wf(r@),
    {
        let a = self;
        Mat4 {
        m00: dot4(a.m00, b.m00, a.m01, b.m10, a.m02, b.m20, a.m03, b.m30),
        m01: dot4(a.m00, b.m01, a.m01, b.m11, a.m02, b.m21, a.m03, b.m31),
        m02: dot4(a.m00, b.m02, a.m01, b.m12, a.m02, b.m22, a.m03, b.m32),
        m03: dot4(a.m00, b.m03, a.m01, b.m13, a.m02, b.m23, a.m03, b.m33),
        m10: dot4(a.m10, b.m00, a.m11, b.m10, a.m12, b.m20, a.m13, b.m30),
        m11: dot4(a.m10, b.m01, a.m11, b.m11, a.m12, b.m21, a.m13, b.m31),
        m12: dot4(a.m10, b.m02, a.m11, b.m12, a.m12, b.m22, a.m13, b.m32),
        m13: dot4(a.m10, b.m03, a.m11, b.m13, a.m12, b.m23, a.m13, b.m33),
        m20: dot4(a.m20, b.m00, a.m21, b.m10, a.m22, b.m20, a.m23, b.m30),
        m21: dot4(a.m20, b.m01, a.m21, b.m11, a.m22, b.m21, a.m23, b.m31),
        m22: dot4(a.m20, b.m02, a.m21, b.m12, a.m22, b.m22, a.m23, b.m32),
        m23: dot4(a.m20, b.m03, a.m21, b.m13, a.m22, b.m23, a.m23, b.m33),
        m30: dot4(a.m30, b.m00, a.m31, b.m10, a.m32, b.m20, a.m33, b.m30),
        m31: dot4(a.m30, b.m01, a.m31, b.m11, a.m32, b.m21, a.m33, b.m31),
        m32: dot4(a.m30, b.m02, a.m31, b.m12, a.m32, b.m22, a.m33, b.m32),
        m33: dot4(a.m30, b.m03, a.m31, b.m13, a.m32, b.m23, a.m33, b.m33),
        }
    }

    /// The transpose.
    pub fn transpose(&self) -> (r: Mat4)
        ensures
            r@ == mv_transpose(self@),
            mat_wf(self@) ==> mat_wf(r@),
    {
        let a = self;
        Mat4 {
        m00: a.m00,
        m01: a.m10,
        m02: a.m20,
        m03: a.m30,
        m10: a.m01,
        m11: a.m11,
        m12: a.m21,
        m13: a.m31,
        m20: a.m02,
        m21: a.m12,
        m22: a.m22,
        m23: a.m32,
        m30: a.m03,
        m31: a.m13,
        m32: a.m23,
        m33: a.m33,
        }
    }

    /// Are all entries within the component bound?
    pub fn is_wf(&self) -> (r: bool)
        ensures
            r == mat_wf(self@),
    {
        -MAT_LIM <= self.m00 && self.m00 <= MAT_LIM && -MAT_LIM <= self.m01 && self.m01 <= MAT_LIM && -MAT_LIM <= self.m02 && self.m02 <= MAT_LIM && -MAT_LIM <= self.m03 && self.m03 <= MAT_LIM && -MAT_LIM <= self.m10 && self.m10 <= MAT_LIM && -MAT_LIM <= self.m11 && self.m11 <= MAT_LIM && -MAT_LIM <= self.m12 && self.m12 <= MAT_LIM && -MAT_LIM <= self.m13 && self.m13 <= MAT_LIM && -MAT_LIM <= self.m20 && self.m20 <= MAT_LIM && -MAT_LIM <= self.m21 && self.m21 <= MAT_LIM && -MAT_LIM <= self.m22 && self.m22 <= MAT_LIM && -MAT_LIM <= self.m23 && self.m23 <= MAT_LIM && -MAT_LIM <= self.m30 && self.m30 <= MAT_LIM && -MAT_LIM <= self.m31 && self.m31 <= MAT_LIM && -MAT_LIM <= self.m32 && self.m32 <= MAT_LIM && -MAT_LIM <= self.m33 && self.m33 <= MAT_LIM
    }
}

/// Multiplying by the identity on the left returns the matrix unchanged.
pub proof fn lemma_mul_identity_left(m: Mat4v)
    requires
        mat_wf(m),
    ensures
        mv_mul(mv_identity(), m) == m,
{
    vstd::arithmetic::div_mod::lemma_div_multiples_vanish(m.m00, 65536);
        vstd::arithmetic::div_mod::lemma_div_multiples_vanish(m.m00, 65536);
    vstd::arithmetic::div_mod::lemma_div_multiples_vanish(m.m01, 65536);
    vstd::arithmetic::div_mod::lemma_div_multiples_vanish(m.m02, 65536);
    vstd::arithmetic::div_mod::lemma_div_multiples_vanish(m.m03, 65536);
    vstd::arithmetic::div_mod::lemma_div_multiples_vanish(m.m10, 65536);
    vstd::arithmetic::div_mod::lemma_div_multiples_vanish(m.m11, 65536);
    vstd::arithmetic::div_mod::lemma_div_multiples_vanish(m.m12, 65536);
    vstd::arithmetic::div_mod::lemma_div_multiples_vanish(m.m13, 65536);
    vstd::arithmetic::div_mod::lemma_div_multiples_vanish(m.m20, 65536);
    vstd::arithmetic::div_mod::lemma_div_multiples_vanish(m.m21, 65536);
    vstd::arithmetic::div_mod::lemma_div_multiples_vanish(m.m22, 65536);
    vstd::arithmetic::div_mod::lemma_div_multiples_vanish(m.m23, 65536);
    vstd::arithmetic::div_mod::lemma_div_multiples_vanish(m.m30, 65536);
    vstd::arithmetic::div_mod::lemma_div_multiples_vanish(m.m31, 65536);
    vstd::arithmetic::div_mod::lemma_div_multiples_vanish(m.m32, 65536);
    vstd::arithmetic::div_mod::lemma_div_multiples_vanish(m.m33, 65536);
}

} // verus!
