use vstd::prelude::*;
use vstd::arithmetic::div_mod::{
    lemma_fundamental_div_mod, lemma_fundamental_div_mod_converse, lemma_small_mod,
};

verus! {

/// Angles are carried as signed fixed-point values: this many units per degree.
pub const UNITS_PER_DEGREE: i64 = 1_000_000_000;

/// The value of `x` brought into `[lo, hi)` by a floored modulo of the width `hi - lo`.
pub open spec fn wrapped(x: int, lo: int, hi: int) -> int
    recommends
        lo < hi,
{
    lo + (x - lo) % (hi - lo)
}

/// Brings `x` into `[range_min, range_max)` by adding a whole multiple of the range's width.
pub fn into_range(x: i64, range_min: i64, range_max: i64) -> (r: i64)
    requires
        range_min < range_max,
    ensures
        r == wrapped(x as int, range_min as int, range_max as int),
        range_min <= r < range_max,
{
    let shifted: i128 = x as i128 - range_min as i128;
    let delta: i128 = range_max as i128 - range_min as i128;
    let m: i128 = if shifted >= 0 {
        shifted % delta
    } else {
        delta - 1 - (-shifted - 1) % delta
    };
    proof {
        lemma_floored_mod(shifted as int, delta as int);
    }
    (m + range_min as i128) as i64
}

/// An azimuth, in fixed-point degrees, brought into `[0, 360)` degrees.
pub fn normalize_azimuth(x: i64) -> (r: i64)
    ensures
        r == wrapped(x as int, 0, 360 * UNITS_PER_DEGREE),
        0 <= r < 360 * UNITS_PER_DEGREE,
{
    into_range(x, 0, 360 * UNITS_PER_DEGREE)
}

/// An elevation, in fixed-point degrees, brought into `[-180, 180)` degrees.
pub fn normalize_elevation(x: i64) -> (r: i64)
    ensures
        r == wrapped(x as int, -180 * UNITS_PER_DEGREE, 180 * UNITS_PER_DEGREE),
        -180 * UNITS_PER_DEGREE <= r < 180 * UNITS_PER_DEGREE,
{
    into_range(x, -180 * UNITS_PER_DEGREE, 180 * UNITS_PER_DEGREE)
}

/// For a negative `s`, its floored remainder mirrors the remainder of `-s - 1`.
proof fn lemma_floored_mod(s: int, d: int)
    requires
        d > 0,
    ensures
        s < 0 ==> s % d == d - 1 - (-s - 1) % d,
        0 <= s % d < d,
{
    if s < 0 {
        let q = (-s - 1) / d;
        let r = (-s - 1) % d;
        lemma_fundamental_div_mod(-s - 1, d);
        assert(s == (-q - 1) * d + (d - 1 - r)) by (nonlinear_arith)
            requires
                -s - 1 == q * d + r,
        ;
        lemma_fundamental_div_mod_converse(s, d, -q - 1, d - 1 - r);
    }
}

/// Every azimuth, whatever angle it started from, is normalized into `[0, 360)` degrees.
pub proof fn lemma_azimuth_in_full_turn(x: int)
    ensures
        0 <= wrapped(x, 0, 360 * UNITS_PER_DEGREE) < 360 * UNITS_PER_DEGREE,
{
    lemma_floored_mod(x, 360 * UNITS_PER_DEGREE);
}

/// Wrapping leaves a value that already lies in `[lo, hi)` as it is.
pub proof fn lemma_wrap_in_range_unchanged(x: int, lo: int, hi: int)
    requires
        lo <= x < hi,
    ensures
        wrapped(x, lo, hi) == x,
{
    lemma_small_mod((x - lo) as nat, (hi - lo) as nat);
}

/// Wrapping is idempotent: a wrapped value wraps to itself.
pub proof fn lemma_wrap_idempotent(x: int, lo: int, hi: int)
    requires
        lo < hi,
    ensures
        wrapped(wrapped(x, lo, hi), lo, hi) == wrapped(x, lo, hi),
{
    lemma_floored_mod(x - lo, hi - lo);
    lemma_wrap_in_range_unchanged(wrapped(x, lo, hi), lo, hi);
}

/// Values that differ by a whole number of range widths wrap to the same value.
pub proof fn lemma_wrap_periodic(x: int, k: int, lo: int, hi: int)
    requires
        lo < hi,
    ensures
        wrapped(x + k * (hi - lo), lo, hi) == wrapped(x, lo, hi),
{
    let d = hi - lo;
    let q = (x - lo) / d;
    let r = (x - lo) % d;
    lemma_floored_mod(x - lo, d);
    lemma_fundamental_div_mod(x - lo, d);
    assert(x + k * d - lo == (q + k) * d + r) by (nonlinear_arith)
        requires
            x - lo == q * d + r,
    ;
    lemma_fundamental_div_mod_converse(x + k * d - lo, d, q + k, r);
}

} // verus!
