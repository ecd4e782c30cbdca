//! The animation clock.
//!
//! Each tick adds the elapsed delta to a mesh's playback cursor and
//! wraps it into `[0, period)`, the period being the clip's last
//! keyframe timestamp. Wrapping is the Euclidean remainder, so deltas
//! larger than one period land exactly where repeated subtraction
//! would, and a run of deltas summing to a whole period returns the
//! cursor to its starting value — stated below as a law.

use vstd::prelude::*;

verus! {

use crate::linalg::MAT_LIM;
use vstd::arithmetic::div_mod::{
    lemma_add_mod_noop_right, lemma_mod_bound, lemma_mod_multiples_vanish, lemma_small_mod,
};

/// The wrapped playback cursor after one tick: unchanged when the
/// period is not positive, otherwise the remainder of the advanced
/// cursor.
pub open spec fn advance_val(t: int, delta: int, period: int) -> int {
    if period <= 0 {
        t
    } else {
        (t + delta) % period
    }
}

/// The cursor after a whole run of ticks.
pub open spec fn advance_seq_val(t0: int, ds: Seq<int>, period: int) -> int
    decreases ds.len(),
{
    if ds.len() == 0 {
        t0
    } else {
        advance_seq_val(advance_val(t0, ds[0], period), ds.drop_first(), period)
    }
}

/// The sum of a run of deltas.
pub open spec fn sum_seq(ds: Seq<int>) -> int
    decreases ds.len(),
{
    if ds.len() == 0 {
        0
    } else {
        ds[0] + sum_seq(ds.drop_first())
    }
}

/// One tick of the clock.
pub fn advance_clock(t: i64, delta: i64, period: i64) -> (r: i64)
    requires
        0 <= t <= MAT_LIM,
        0 <= delta <= MAT_LIM,
    ensures
        r as int == advance_val(t as int, delta as int, period as int),
        period > 0 ==> 0 <= r < period,
        period <= 0 ==> r == t,
{
    if period <= 0 {
        t
    } else {
        let sum: u64 = (t as u64) + (delta as u64);
        let rem: u64 = sum % (period as u64);
        rem as i64
    }
}

/// A run of ticks lands on the remainder of the total advance.
proof fn lemma_advance_seq_mod(t0: int, ds: Seq<int>, period: int)
    requires
        0 < period,
        0 <= t0 < period,
    ensures
        advance_seq_val(t0, ds, period) == (t0 + sum_seq(ds)) % period,
    decreases ds.len(),
{
    if ds.len() == 0 {
        lemma_small_mod(t0 as nat, period as nat);
    } else {
        let t1 = (t0 + ds[0]) % period;
        lemma_mod_bound(t0 + ds[0], period);
        lemma_advance_seq_mod(t1, ds.drop_first(), period);
        // ((t0 + d0) % p + rest) % p == (t0 + d0 + rest) % p
        lemma_add_mod_noop_right(sum_seq(ds.drop_first()), t0 + ds[0], period);
        assert(t1 + sum_seq(ds.drop_first()) == sum_seq(ds.drop_first()) + t1);
    }
}

/// Time wraparound: ticks whose deltas sum to exactly one period
/// return the cursor to its starting value.
pub proof fn lemma_clock_wraparound(t0: int, ds: Seq<int>, period: int)
    requires
        0 < period,
        0 <= t0 < period,
        sum_seq(ds) == period,
    ensures
        advance_seq_val(t0, ds, period) == t0,
{
    lemma_advance_seq_mod(t0, ds, period);
    lemma_mod_multiples_vanish(1, t0, period);
    lemma_small_mod(t0 as nat, period as nat);
}

} // verus!
