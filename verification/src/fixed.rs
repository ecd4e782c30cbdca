//! Signed 16.16 fixed-point scalars.
//!
//! A scalar is an `i64` holding `value * 65536`. Products and quotients
//! are computed in `i128`, floored, and clamped into the `i64` range, so
//! every operation is total and its result is pinned exactly.

use vstd::prelude::*;

verus! {

use vstd::arithmetic::div_mod::{
    lemma_fundamental_div_mod, lemma_fundamental_div_mod_converse, lemma_mod_bound,
};

/// One unit in the 16.16 fixed-point scale.
pub const FX_ONE: i64 = 65536;

/// One half in the 16.16 fixed-point scale.
pub const FX_HALF: i64 = 32768;

/// Clamp an unbounded integer into the `i64` range.
pub open spec fn sat64(x: int) -> int {
    if x > i64::MAX as int {
        i64::MAX as int
    } else if x < i64::MIN as int {
        i64::MIN as int
    } else {
        x
    }
}

/// Scaled product: `floor(a * b / FX_ONE)`, clamped into the `i64` range.
pub open spec fn fx_mul_val(a: int, b: int) -> int {
    sat64((a * b) / (FX_ONE as int))
}

/// Scaled quotient: `floor(a * FX_ONE / b)` for a positive divisor,
/// clamped into the `i64` range; zero when the divisor is not positive.
pub open spec fn fx_div_val(a: int, b: int) -> int {
    if b <= 0 {
        0
    } else {
        sat64((a * (FX_ONE as int)) / b)
    }
}

/// The integer square root: the unique `r >= 0` with
/// `r * r <= n < (r + 1) * (r + 1)`.
pub open spec fn isqrt_val(n: int) -> int {
    choose|r: int| 0 <= r && #[trigger] (r * r) <= n < (r + 1) * (r + 1)
}

/// Square root in the fixed scale: `isqrt(x * FX_ONE)` for a positive
/// argument, zero otherwise.
pub open spec fn fx_sqrt_val(x: int) -> int {
    if x <= 0 {
        0
    } else {
        isqrt_val(x * (FX_ONE as int))
    }
}

/// Any value with the square-root bracketing property is the integer
/// square root.
pub proof fn lemma_isqrt_unique(n: int, r: int)
    requires
        0 <= r,
        r * r <= n,
        n < (r + 1) * (r + 1),
    ensures
        isqrt_val(n) == r,
{
    assert(exists|q: int| 0 <= q && #[trigger] (q * q) <= n < (q + 1) * (q + 1)) by {
        assert(0 <= r && r * r <= n < (r + 1) * (r + 1));
    }
    let c = choose|q: int| 0 <= q && #[trigger] (q * q) <= n < (q + 1) * (q + 1);
    assert(c == r) by (nonlinear_arith)
        requires
            0 <= r,
            r * r <= n,
            n < (r + 1) * (r + 1),
            0 <= c,
            c * c <= n,
            n < (c + 1) * (c + 1),
    ;
}

/// Floor division of an `i128` by a positive divisor. Euclidean division
/// by a positive divisor is exactly the floor, so the contract is plain
/// `/` on `int`.
pub fn floor_div_i128(n: i128, d: i128) -> (q: i128)
    requires
        0 < d,
    ensures
        q as int == n as int / d as int,
{
    if n >= 0 {
        let un: u128 = n as u128;
        let ud: u128 = d as u128;
        let uq: u128 = un / ud;
        proof {
            lemma_fundamental_div_mod(un as int, ud as int);
            lemma_mod_bound(un as int, ud as int);
            assert(uq as int <= un as int) by (nonlinear_arith)
                requires
                    0 <= un as int,
                    0 < ud as int,
                    uq as int == un as int / ud as int,
            ;
        }
        uq as i128
    } else {
        // For n < 0 let m = -n - 1 >= 0. Then
        // floor(n / d) == -(floor(m / d) + 1).
        let m: i128 = -(n + 1);
        let um: u128 = m as u128;
        let ud: u128 = d as u128;
        let uq: u128 = um / ud;
        proof {
            let mi = m as int;
            let di = d as int;
            let qi = mi / di;
            lemma_fundamental_div_mod(mi, di);
            lemma_mod_bound(mi, di);
            let r = mi % di;
            assert(uq as int <= mi) by (nonlinear_arith)
                requires
                    0 <= mi,
                    0 < di,
                    uq as int == mi / di,
            ;
            assert(n as int == (-qi - 1) * di + (di - 1 - r)) by (nonlinear_arith)
                requires
                    mi == di * qi + r,
                    n as int == -mi - 1,
            ;
            lemma_fundamental_div_mod_converse(n as int, di, -qi - 1, di - 1 - r);
        }
        -(uq as i128) - 1
    }
}

/// Clamp an `i128` into the `i64` range.
pub fn sat_i128(q: i128) -> (r: i64)
    ensures
        r as int == sat64(q as int),
{
    if q > i64::MAX as i128 {
        i64::MAX
    } else if q < i64::MIN as i128 {
        i64::MIN
    } else {
        q as i64
    }
}

/// Fixed-point multiplication.
pub fn fx_mul(a: i64, b: i64) -> (r: i64)
    ensures
        r as int == fx_mul_val(a as int, b as int),
{
    proof {
        assert((a as int) * (b as int) <= i128::MAX as int
            && (a as int) * (b as int) >= i128::MIN as int) by (nonlinear_arith)
            requires
                i64::MIN as int <= a as int <= i64::MAX as int,
                i64::MIN as int <= b as int <= i64::MAX as int,
        ;
    }
    let p: i128 = (a as i128) * (b as i128);
    let q = floor_div_i128(p, 65536);
    sat_i128(q)
}

/// Fixed-point division; zero when the divisor is not positive.
pub fn fx_div(a: i64, b: i64) -> (r: i64)
    ensures
        r as int == fx_div_val(a as int, b as int),
{
    if b <= 0 {
        0
    } else {
        proof {
            assert((a as int) * 65536 <= i128::MAX as int
                && (a as int) * 65536 >= i128::MIN as int) by (nonlinear_arith)
                requires
                    i64::MIN as int <= a as int <= i64::MAX as int,
            ;
        }
        let p: i128 = (a as i128) * 65536;
        let q = floor_div_i128(p, b as i128);
        sat_i128(q)
    }
}

/// Integer square root of a `u64`, by binary search on the root.
pub fn isqrt_u64(n: u64) -> (r: u64)
    ensures
        r as int == isqrt_val(n as int),
        r as int * r as int <= n as int,
        (n as int) < (r as int + 1) * (r as int + 1),
{
    let mut lo: u64 = 0;
    let mut hi: u64 = 4294967296;
    proof {
        assert((hi as int) * (hi as int) > n as int) by (nonlinear_arith)
            requires
                hi as int == 4294967296,
                n as int <= u64::MAX as int,
        ;
    }
    while lo + 1 < hi
        invariant
            lo < hi <= 4294967296,
            (lo as int) * (lo as int) <= n as int,
            (hi as int) * (hi as int) > n as int,
        decreases hi - lo,
    {
        let mid: u64 = lo + (hi - lo) / 2;
        proof {
            assert((mid as int) * (mid as int) <= u128::MAX as int)
                by (nonlinear_arith)
                requires
                    0 <= mid as int,
                    (mid as int) < 4294967297,
            ;
        }
        let sq: u128 = (mid as u128) * (mid as u128);
        if sq <= n as u128 {
            lo = mid;
        } else {
            hi = mid;
        }
    }
    proof {
        lemma_isqrt_unique(n as int, lo as int);
    }
    lo
}

/// Fixed-point square root.
pub fn fx_sqrt(x: i64) -> (r: i64)
    ensures
        r as int == fx_sqrt_val(x as int),
        0 <= r,
        x > 0 ==> (r as int) * (r as int) <= (x as int) * 65536
            && (x as int) * 65536 < (r as int + 1) * (r as int + 1),
{
    if x <= 0 {
        0
    } else {
        proof {
            assert((x as int) * 65536 <= u128::MAX as int) by (nonlinear_arith)
                requires
                    0 < x as int <= i64::MAX as int,
            ;
        }
        // x * FX_ONE can exceed u64 for very large x; split via u128.
        let p: u128 = (x as u128) * 65536;
        if p > u64::MAX as u128 {
            // The root of anything at most 2^127 fits easily in i64;
            // search directly on the wide product.
            let r = isqrt_u128(p);
            proof {
                lemma_isqrt_unique((x as int) * 65536, r as int);
                assert(r as int <= i64::MAX as int) by (nonlinear_arith)
                    requires
                        0 <= r as int,
                        (r as int) * (r as int) <= (x as int) * 65536,
                        (x as int) * 65536 <= i64::MAX as int * 65536,
                ;
            }
            r as i64
        } else {
            let r = isqrt_u64(p as u64);
            proof {
                assert(r as int <= i64::MAX as int) by (nonlinear_arith)
                    requires
                        0 <= r as int,
                        (r as int) * (r as int) <= u64::MAX as int,
                ;
            }
            r as i64
        }
    }
}

/// Integer square root of a `u128`, by binary search on the root.
pub fn isqrt_u128(n: u128) -> (r: u64)
    ensures
        r as int * r as int <= n as int,
        (n as int) < (r as int + 1) * (r as int + 1),
{
    let mut lo: u128 = 0;
    let mut hi: u128 = 18446744073709551616;
    proof {
        assert((hi as int) * (hi as int) > n as int) by (nonlinear_arith)
            requires
                hi as int == 18446744073709551616,
                n as int <= u128::MAX as int,
        ;
    }
    while lo + 1 < hi
        invariant
            lo < hi <= 18446744073709551616,
            (lo as int) * (lo as int) <= n as int,
            (hi as int) * (hi as int) > n as int,
        decreases hi - lo,
    {
        let mid: u128 = lo + (hi - lo) / 2;
        proof {
            assert((mid as int) * (mid as int) <= u128::MAX as int)
                by (nonlinear_arith)
                requires
                    0 <= mid as int,
                    (mid as int) < 18446744073709551616,
            ;
        }
        let sqh: u128 = mid * mid;
        if sqh <= n {
            lo = mid;
        } else {
            hi = mid;
        }
    }
    lo as u64
}

} // verus!
