//! Fixed-point units of the simulation.
//!
//! Lengths are counted in sub-units, `UNIT` of them to one arena unit, and
//! speeds in steps, `SPEED_UNIT` of them to one arena unit per second. The
//! simulation advances `TICKS_PER_SECOND` times a second, and the two scales
//! are chosen so that `UNIT == SPEED_UNIT * TICKS_PER_SECOND`: a body moving
//! at `v` steps covers exactly `v` sub-units in one tick.

use vstd::prelude::*;

verus! {

/// Sub-units in one arena unit of length.
pub const UNIT: i64 = 6000;

/// Speed steps in one arena unit per second.
pub const SPEED_UNIT: i64 = 100;

/// Simulation ticks in one second.
pub const TICKS_PER_SECOND: i64 = 60;

/// Nanoseconds covered by one tick, rounded up to a whole nanosecond.
pub const TICK_NANOS: u64 = 16_666_667;

/// The two scales agree: at one step of speed a body covers one sub-unit in
/// a tick.
pub proof fn lemma_step_covers_one_sub_unit_a_tick()
    ensures
        UNIT == SPEED_UNIT * TICKS_PER_SECOND,
{
}

/// `v` limited to the closed interval from `lo` to `hi`.
pub open spec fn clamp(v: int, lo: int, hi: int) -> int {
    if v < lo {
        lo
    } else if v > hi {
        hi
    } else {
        v
    }
}

/// The absolute value of `v`.
pub open spec fn magnitude(v: int) -> int {
    if v < 0 {
        -v
    } else {
        v
    }
}

/// The quotient of `a` by `b` rounded toward zero; zero when `b` is zero.
pub open spec fn quotient_toward_zero(a: int, b: int) -> int {
    if b == 0 {
        0
    } else if (a < 0) == (b < 0) {
        magnitude(a) / magnitude(b)
    } else {
        -(magnitude(a) / magnitude(b))
    }
}

/// Limits `v` to the closed interval from `lo` to `hi`.
pub fn clamp_i64(v: i64, lo: i64, hi: i64) -> (r: i64)
    requires
        lo <= hi,
    ensures
        r == clamp(v as int, lo as int, hi as int),
{
    if v < lo {
        lo
    } else if v > hi {
        hi
    } else {
        v
    }
}

/// Limits a wide intermediate value to an interval of `i64` bounds.
pub fn clamp_wide(v: i128, lo: i64, hi: i64) -> (r: i64)
    requires
        lo <= hi,
    ensures
        r == clamp(v as int, lo as int, hi as int),
{
    if v < lo as i128 {
        lo
    } else if v > hi as i128 {
        hi
    } else {
        v as i64
    }
}

/// Divides rounding toward zero.
pub fn divide_toward_zero(a: i128, b: i128) -> (q: i128)
    requires
        b != 0,
        a > i128::MIN,
        b > i128::MIN,
    ensures
        q == quotient_toward_zero(a as int, b as int),
{
    let a_mag: i128 = if a < 0 { -a } else { a };
    let b_mag: i128 = if b < 0 { -b } else { b };
    let q_mag: i128 = a_mag / b_mag;
    proof {
        lemma_quotient_bounded(a_mag as int, b_mag as int);
    }
    if (a < 0) == (b < 0) {
        q_mag
    } else {
        -q_mag
    }
}

/// A quotient of non-negative numbers lies between zero and the dividend.
pub proof fn lemma_quotient_bounded(a: int, b: int)
    by (nonlinear_arith)
    requires
        a >= 0,
        b > 0,
    ensures
        0 <= a / b <= a,
{
}

/// Rounding toward zero leaves a remainder smaller than the divisor:
/// the quotient times the divisor differs from the dividend by less than
/// the divisor's magnitude.
pub proof fn lemma_quotient_toward_zero_error(a: int, b: int)
    by (nonlinear_arith)
    requires
        b != 0,
    ensures
        magnitude(quotient_toward_zero(a, b) * b - a) < magnitude(b),
        a == 0 ==> quotient_toward_zero(a, b) == 0,
{
}

} // verus!
