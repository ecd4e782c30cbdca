//! Fixed-point circular functions for spherical interpolation.
//!
//! `sin_fx` evaluates a degree-7 Taylor polynomial on the first quarter
//! turn and folds the rest of `[0, pi]` onto it; `cos_fx` shifts by a
//! quarter turn; `acos_fx` inverts `cos_fx` by bisection. Every spec
//! function states the computed value exactly, over the same clamped
//! fixed-point steps the executable code performs.

use vstd::prelude::*;

verus! {

use crate::linalg::{add_lim, clampv, in_lim, mul_lim, scale_entry, scaled, sub_lim};
use crate::fixed::FX_ONE;

/// Half a turn, `pi`, in the 16.16 scale.
pub const PI_FX: i64 = 205887;

/// A quarter turn, `pi / 2`, in the 16.16 scale.
pub const HALF_PI_FX: i64 = 102944;

/// `1 / 6` in the 16.16 scale.
pub const INV6_FX: i64 = 10923;

/// `1 / 120` in the 16.16 scale.
pub const INV120_FX: i64 = 546;

/// `1 / 5040` in the 16.16 scale.
pub const INV5040_FX: i64 = 13;

/// Bisection depth that pins the arc cosine to the unit step.
pub const ACOS_ITERS: u32 = 20;

/// The Taylor polynomial `x - x^3/6 + x^5/120 - x^7/5040` on the first
/// quarter turn, every product scaled and clamped as it is formed.
pub open spec fn sin_quarter_val(x: int) -> int {
    let x2 = scaled(x * x);
    let x3 = scaled(x2 * x);
    let x5 = scaled(x3 * x2);
    let x7 = scaled(x5 * x2);
    let t3 = scaled(x3 * INV6_FX as int);
    let t5 = scaled(x5 * INV120_FX as int);
    let t7 = scaled(x7 * INV5040_FX as int);
    clampv(clampv(clampv(x - t3) + t5) - t7)
}

/// The sine on `[0, pi]`, folded onto the first quarter turn.
pub open spec fn sin_val(x: int) -> int {
    if x > HALF_PI_FX as int {
        sin_quarter_val(PI_FX as int - x)
    } else {
        sin_quarter_val(x)
    }
}

/// The cosine on `[0, pi]`, shifted onto the sine's quarter turn.
pub open spec fn cos_val(x: int) -> int {
    if x <= HALF_PI_FX as int {
        sin_quarter_val(HALF_PI_FX as int - x)
    } else {
        -sin_quarter_val(x - HALF_PI_FX as int)
    }
}

/// One bisection pass inverting the cosine: keep the half of the
/// bracket whose cosine still lies on the wanted side.
pub open spec fn acos_iter_val(lo: int, hi: int, x: int, fuel: nat) -> int
    decreases fuel,
{
    if fuel == 0 {
        lo
    } else {
        let mid = lo + (hi - lo) / 2;
        if cos_val(mid) >= x {
            acos_iter_val(mid, hi, x, (fuel - 1) as nat)
        } else {
            acos_iter_val(lo, mid, x, (fuel - 1) as nat)
        }
    }
}

/// The arc cosine on the clamped argument, by bisection over `[0, pi]`.
pub open spec fn acos_val(x: int) -> int {
    let xc = if x > FX_ONE as int {
        FX_ONE as int
    } else if x < -FX_ONE as int {
        -FX_ONE as int
    } else {
        x
    };
    acos_iter_val(0, PI_FX as int, xc, ACOS_ITERS as nat)
}

/// The quarter-turn Taylor polynomial.
fn sin_quarter(x: i64) -> (r: i64)
    requires
        0 <= x <= HALF_PI_FX,
    ensures
        r as int == sin_quarter_val(x as int),
        in_lim(r as int),
{
    let x2 = scale_entry(mul_lim(x, x));
    let x3 = scale_entry(mul_lim(x2, x));
    let x5 = scale_entry(mul_lim(x3, x2));
    let x7 = scale_entry(mul_lim(x5, x2));
    let t3 = scale_entry(mul_lim(x3, INV6_FX));
    let t5 = scale_entry(mul_lim(x5, INV120_FX));
    let t7 = scale_entry(mul_lim(x7, INV5040_FX));
    sub_lim(add_lim(sub_lim(x, t3), t5), t7)
}

/// The sine on `[0, pi]`.
pub fn sin_fx(x: i64) -> (r: i64)
    requires
        0 <= x <= PI_FX,
    ensures
        r as int == sin_val(x as int),
        in_lim(r as int),
{
    if x > HALF_PI_FX {
        sin_quarter(PI_FX - x)
    } else {
        sin_quarter(x)
    }
}

/// The cosine on `[0, pi]`.
pub fn cos_fx(x: i64) -> (r: i64)
    requires
        0 <= x <= PI_FX,
    ensures
        r as int == cos_val(x as int),
        in_lim(r as int),
{
    if x <= HALF_PI_FX {
        sin_quarter(HALF_PI_FX - x)
    } else {
        -sin_quarter(x - HALF_PI_FX)
    }
}

/// The bisection behind the arc cosine.
fn acos_iter(lo: i64, hi: i64, x: i64, fuel: u32) -> (r: i64)
    requires
        0 <= lo <= hi <= PI_FX,
    ensures
        r as int == acos_iter_val(lo as int, hi as int, x as int, fuel as nat),
        0 <= r as int <= PI_FX as int,
    decreases fuel,
{
    if fuel == 0 {
        lo
    } else {
        let mid: i64 = lo + (((hi - lo) as u64) / 2) as i64;
        let c = cos_fx(mid);
        if c >= x {
            acos_iter(mid, hi, x, fuel - 1)
        } else {
            acos_iter(lo, mid, x, fuel - 1)
        }
    }
}

/// The arc cosine of a clamped cosine value, in `[0, pi]`.
pub fn acos_fx(x: i64) -> (r: i64)
    ensures
        r as int == acos_val(x as int),
        0 <= r as int <= PI_FX as int,
{
    let xc = if x > FX_ONE {
        FX_ONE
    } else if x < -FX_ONE {
        -FX_ONE
    } else {
        x
    };
    acos_iter(0, PI_FX, xc, ACOS_ITERS)
}

} // verus!
