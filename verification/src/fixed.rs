//! Fixed-point base of the library.
//!
//! Physical quantities are integers counted in thousandths of a world unit
//! ("milli-units"): a speed of `7.0` units per second is `7000`, a distance
//! of `18.0` units is `18_000`.  Time is counted in milliseconds.  Scaling a
//! per-second quantity by an elapsed time therefore divides by [`MILLI`],
//! truncating toward zero — a thousandth of a unit of rounding at most,
//! invisible at world scale and exactly specified.

use vstd::prelude::*;

verus! {

/// Fixed-point scale: milli-units per world unit, and milliseconds per second.
pub const MILLI: i64 = 1_000;

/// Largest admissible top speed, in milli-units per second (1000 units/s).
pub const SPEED_LIMIT: i64 = 1_000_000;

/// Largest admissible acceleration magnitude, in milli-units per second
/// squared (1000 units/s^2).
pub const ACCEL_LIMIT: i64 = 1_000_000;

/// Largest admissible frame time, in milliseconds (one hour).
pub const DT_LIMIT: u64 = 3_600_000;

/// Truncating clamp of `x` into `[lo, hi]`.
pub open spec fn clamped(x: int, lo: int, hi: int) -> int {
    if x < lo {
        lo
    } else if x > hi {
        hi
    } else {
        x
    }
}

/// A per-second quantity `v` integrated over `dt` milliseconds, truncated
/// toward zero: `v * dt / 1000`.
pub open spec fn per_second(v: int, dt: int) -> int {
    if v >= 0 {
        v * dt / (MILLI as int)
    } else {
        -((-v) * dt / (MILLI as int))
    }
}

/// The ratio `num / denom` in milli-units (`1000` stands for `1.0`),
/// truncated toward zero.
pub open spec fn ratio_milli(num: int, denom: int) -> int {
    if num >= 0 {
        num * (MILLI as int) / denom
    } else {
        -((-num) * (MILLI as int) / denom)
    }
}

/// Clamps `x` into `[lo, hi]`.
pub fn clamp_i64(x: i64, lo: i64, hi: i64) -> (r: i64)
    requires
        lo <= hi,
    ensures
        r == clamped(x as int, lo as int, hi as int),
        lo <= r <= hi,
{
    if x < lo {
        lo
    } else if x > hi {
        hi
    } else {
        x
    }
}

/// Integrates the per-second quantity `v` over `dt` milliseconds.
pub fn scale_per_second(v: i64, dt: u64) -> (r: i64)
    requires
        -ACCEL_LIMIT <= v <= ACCEL_LIMIT,
        dt <= DT_LIMIT,
    ensures
        r == per_second(v as int, dt as int),
        -ACCEL_LIMIT * DT_LIMIT <= r <= ACCEL_LIMIT * DT_LIMIT,
{
    if v >= 0 {
        assert((v as u64) * dt <= ACCEL_LIMIT * DT_LIMIT) by (nonlinear_arith)
            requires
                v as u64 <= ACCEL_LIMIT,
                dt <= DT_LIMIT,
        ;
        let m: u64 = (v as u64) * dt;
        (m / (MILLI as u64)) as i64
    } else {
        assert(((-v) as u64) * dt <= ACCEL_LIMIT * DT_LIMIT) by (nonlinear_arith)
            requires
                (-v) as u64 <= ACCEL_LIMIT,
                dt <= DT_LIMIT,
        ;
        let m: u64 = ((-v) as u64) * dt;
        -((m / (MILLI as u64)) as i64)
    }
}

/// Computes `num / denom` in milli-units, truncating toward zero.
pub fn ratio_milli_i64(num: i64, denom: i64) -> (r: i64)
    requires
        1 <= denom,
        -SPEED_LIMIT <= num <= SPEED_LIMIT,
    ensures
        r == ratio_milli(num as int, denom as int),
{
    if num >= 0 {
        assert((num as u64) * (MILLI as u64) <= SPEED_LIMIT * MILLI) by (nonlinear_arith)
            requires
                num as u64 <= SPEED_LIMIT,
        ;
        let m: u64 = (num as u64) * (MILLI as u64);
        (m / (denom as u64)) as i64
    } else {
        assert(((-num) as u64) * (MILLI as u64) <= SPEED_LIMIT * MILLI) by (nonlinear_arith)
            requires
                (-num) as u64 <= SPEED_LIMIT,
        ;
        let m: u64 = ((-num) as u64) * (MILLI as u64);
        -((m / (denom as u64)) as i64)
    }
}

} // verus!
