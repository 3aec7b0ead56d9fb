//! Daily growing degree days from the day's temperature extremes.
use vstd::prelude::*;
use crate::rounding::round_half_away;
use crate::rounding::lemma_round_is_nearest;

verus! {

/// Lowest value the daily maximum is allowed to contribute (0 degrees).
pub const MAX_TEMP_FLOOR: i32 = 0;

/// Lowest value the daily minimum is allowed to contribute (-5 degrees).
pub const MIN_TEMP_FLOOR: i32 = -5_000;

/// Highest value either extreme is allowed to contribute (30 degrees).
pub const TEMP_CEILING: i32 = 30_000;

/// `x` brought into `[lo, hi]`.
pub open spec fn clamp(x: int, lo: int, hi: int) -> int
    recommends
        lo <= hi,
{
    if x < lo {
        lo
    } else if x > hi {
        hi
    } else {
        x
    }
}

/// The daily maximum as it enters the average: clamped to `[0, 30]` degrees
/// and then raised to the clamped minimum if it lies below it.
pub open spec fn effective_max(max_temp: int, min_temp: int) -> int {
    let hi = clamp(max_temp, MAX_TEMP_FLOOR as int, TEMP_CEILING as int);
    let lo = effective_min(min_temp);
    if hi < lo {
        lo
    } else {
        hi
    }
}

/// The daily minimum as it enters the average: clamped to `[-5, 30]` degrees.
pub open spec fn effective_min(min_temp: int) -> int {
    clamp(min_temp, MIN_TEMP_FLOOR as int, TEMP_CEILING as int)
}

/// The base temperature as it is used: never below zero.
pub open spec fn effective_base(base_temp: int) -> int {
    if base_temp < 0 {
        0
    } else {
        base_temp
    }
}

/// Growing degree days of one day, in thousandths of a degree day: the amount
/// by which the average of the effective extremes exceeds the effective base,
/// or zero if it does not. An average that falls between two thousandths is
/// rounded half up.
pub open spec fn daily_gdd(max_temp: int, min_temp: int, base_temp: int) -> int {
    let twice_avg = effective_max(max_temp, min_temp) + effective_min(min_temp);
    let twice_base = effective_base(base_temp) + effective_base(base_temp);
    if twice_avg <= twice_base {
        0
    } else {
        round_half_away(twice_avg - twice_base, 2)
    }
}

/// Growing degree days are never negative and never exceed the ceiling of 30
/// degrees, whatever the three temperatures are.
pub proof fn lemma_daily_gdd_bounds(max_temp: int, min_temp: int, base_temp: int)
    ensures
        0 <= daily_gdd(max_temp, min_temp, base_temp) <= TEMP_CEILING,
{
    let twice_avg = effective_max(max_temp, min_temp) + effective_min(min_temp);
    let twice_base = effective_base(base_temp) + effective_base(base_temp);
    if twice_avg > twice_base {
        lemma_round_is_nearest(twice_avg - twice_base, 2);
    }
}

/// Computes the growing degree days of one day. All three temperatures and
/// the result are in thousandths of a degree.
///
/// No input is rejected: the extremes are clamped, an inverted pair is
/// repaired by raising the maximum, and a negative base counts as zero.
pub fn calculate_gdd(max_temp: i32, min_temp: i32, base_temp: i32) -> (gdd: i32)
    ensures
        gdd == daily_gdd(max_temp as int, min_temp as int, base_temp as int),
        0 <= gdd <= TEMP_CEILING,
{
    let mut hi: i32 = max_temp;
    if hi < MAX_TEMP_FLOOR {
        hi = MAX_TEMP_FLOOR;
    }
    if hi > TEMP_CEILING {
        hi = TEMP_CEILING;
    }
    let mut lo: i32 = min_temp;
    if lo < MIN_TEMP_FLOOR {
        lo = MIN_TEMP_FLOOR;
    }
    if lo > TEMP_CEILING {
        lo = TEMP_CEILING;
    }
    let base: i64 = if base_temp < 0 {
        0
    } else {
        base_temp as i64
    };
    if hi < lo {
        hi = lo;
    }
    let twice_avg: i64 = hi as i64 + lo as i64;
    let twice_base: i64 = base + base;
    proof {
        lemma_daily_gdd_bounds(max_temp as int, min_temp as int, base_temp as int);
    }
    if twice_avg <= twice_base {
        0
    } else {
        let excess: i64 = twice_avg - twice_base;
        ((excess + excess + 2) / 4) as i32
    }
}

} // verus!
