//! The FAO-56 correction of a crop coefficient for wind, humidity and canopy
//! height.
//!
//! In decimal terms the corrected coefficient is
//! `kc + (0.04 (u - 2) - 0.0004 (rh - 45)) (h / 3)^0.3`,
//! with `u` the wind speed in m/s, `rh` the minimum relative humidity in
//! percent and `h` the canopy height in metres. The correction vanishes at the
//! reference climate of 2 m/s and 45 %.
use vstd::prelude::*;
use crate::rounding::round_half_away;
use crate::rounding::round_ratio;
use crate::rounding::lemma_round_whole;
use crate::rounding::lemma_round_within;

verus! {

/// Wind speed at which the correction vanishes, and the default (2 m/s).
pub const REFERENCE_WIND: i32 = 2_000;

/// Minimum relative humidity at which the correction vanishes, and the
/// default (45 %).
pub const REFERENCE_HUMIDITY: i32 = 45_000;

/// A humidity below this (1 %) is read as a fraction of one.
pub const FRACTION_LIMIT: i32 = 1_000;

/// Number of correction units in one thousandth of Kc. The climate term is
/// held in units of 10^-7 and the height factor in thousandths, so their
/// product is in units of 10^-10.
pub const CORRECTION_SCALE: i64 = 10_000_000;

/// Canopy height assumed where neither the caller nor a profile gives one
/// (1.391 m).
pub const DEFAULT_CANOPY_HEIGHT: u16 = 1_391;

/// Exclusive upper bound of the height factor over all canopy heights that a
/// `u16` can hold.
pub const FACTOR_LIMIT: u16 = 4_096;

/// Wind, humidity and canopy height as the model sees them.
pub struct Climate {
    /// Wind speed in thousandths of m/s.
    pub wind: int,
    /// Minimum relative humidity in thousandths of a percent, or, below
    /// `FRACTION_LIMIT`, in thousandths of a fraction of one.
    pub humidity: int,
    /// Canopy height in millimetres.
    pub height: int,
}

/// Wind, humidity and canopy height of one evaluation.
#[derive(Debug, Clone, Copy, PartialEq, Eq, Structural)]
pub struct EnvironmentalFactors {
    /// Wind speed in thousandths of m/s.
    pub wind_speed: i32,
    /// Minimum relative humidity in thousandths of a percent; a value below
    /// `FRACTION_LIMIT` is read as a fraction of one.
    pub min_relative_humidity: i32,
    /// Canopy height in millimetres.
    pub canopy_height: u16,
}

impl View for EnvironmentalFactors {
    type V = Climate;

    open spec fn view(&self) -> Climate {
        Climate {
            wind: self.wind_speed as int,
            humidity: self.min_relative_humidity as int,
            height: self.canopy_height as int,
        }
    }
}

impl EnvironmentalFactors {
    /// Fills each factor that is absent with its default: the reference wind
    /// speed, the reference humidity, and `default_height`.
    pub fn from_options(
        wind_speed: Option<i32>,
        rh_min: Option<i32>,
        canopy_height: Option<u16>,
        default_height: u16,
    ) -> (env: Self)
        ensures
            env@ == climate_from(wind_speed, rh_min, canopy_height, default_height),
    {
        EnvironmentalFactors {
            wind_speed: match wind_speed {
                Some(w) => w,
                None => REFERENCE_WIND,
            },
            min_relative_humidity: match rh_min {
                Some(rh) => rh,
                None => REFERENCE_HUMIDITY,
            },
            canopy_height: match canopy_height {
                Some(h) => h,
                None => default_height,
            },
        }
    }
}

/// The climate that optional factors stand for: an absent wind speed is the
/// reference wind speed, an absent humidity the reference humidity, and an
/// absent canopy height `default_height`.
pub open spec fn climate_from(
    wind_speed: Option<i32>,
    rh_min: Option<i32>,
    canopy_height: Option<u16>,
    default_height: u16,
) -> Climate {
    Climate {
        wind: match wind_speed {
            Some(w) => w as int,
            None => REFERENCE_WIND as int,
        },
        humidity: match rh_min {
            Some(rh) => rh as int,
            None => REFERENCE_HUMIDITY as int,
        },
        height: match canopy_height {
            Some(h) => h as int,
            None => default_height as int,
        },
    }
}

impl Default for EnvironmentalFactors {
    /// The reference climate over a canopy of the default height.
    fn default() -> (env: Self)
        ensures
            env@ == climate_from(None, None, None, DEFAULT_CANOPY_HEIGHT),
    {
        EnvironmentalFactors {
            wind_speed: REFERENCE_WIND,
            min_relative_humidity: REFERENCE_HUMIDITY,
            canopy_height: DEFAULT_CANOPY_HEIGHT,
        }
    }
}

/// The climate in which the humidity has been brought to percent.
pub open spec fn in_percent(climate: Climate) -> Climate {
    Climate {
        wind: climate.wind,
        humidity: humidity_percent(climate.humidity),
        height: climate.height,
    }
}

/// Humidity in thousandths of a percent: a value below one percent is taken
/// to be a fraction of one and multiplied by a hundred.
pub open spec fn humidity_percent(humidity: int) -> int {
    if humidity < FRACTION_LIMIT {
        humidity * 100
    } else {
        humidity
    }
}

/// `0.04 (u - 2) - 0.0004 (rh - 45)` in units of 10^-7, for a wind speed in
/// thousandths of m/s and a humidity in thousandths of a percent.
pub open spec fn climate_term(wind: int, humidity: int) -> int {
    400 * (wind - REFERENCE_WIND) - 4 * (humidity - REFERENCE_HUMIDITY)
}

/// The tenth power of `y`.
pub open spec fn pow10(y: int) -> int {
    y * y * y * y * y * y * y * y * y * y
}

/// The third power of `x`.
pub open spec fn cube(x: int) -> int {
    x * x * x
}

/// Whether `y / 1000` is at most `(h / 3000)^0.3`. Raising both sides to the
/// tenth power and clearing denominators turns this into
/// `27 y^10 <= 10^21 h^3`.
pub open spec fn factor_fits(height: int, y: int) -> bool {
    27 * pow10(y) <= 1_000_000_000_000_000_000_000 * cube(height)
}

/// Whether `y` is `(h / 3)^0.3` in thousandths, rounded down, for a height of
/// `height` millimetres.
pub open spec fn is_height_factor(height: int, y: int) -> bool {
    &&& 0 <= y
    &&& factor_fits(height, y)
    &&& !factor_fits(height, y + 1)
}

/// `(h / 3)^0.3` in thousandths, rounded down, for a canopy height of
/// `height` millimetres. Every height from zero up has exactly one such
/// factor (`lemma_height_factor_exists`, `lemma_height_factor_unique`).
pub open spec fn height_factor(height: int) -> int {
    choose|y: int| is_height_factor(height, y)
}

/// The correction to a coefficient, in units of 10^-10.
pub open spec fn correction(climate: Climate) -> int {
    climate_term(climate.wind, climate.humidity) * height_factor(climate.height)
}

/// The corrected coefficient in thousandths, rounded to the nearest
/// thousandth with halves away from zero.
pub open spec fn adjusted_kc(kc: int, climate: Climate) -> int {
    round_half_away(kc * CORRECTION_SCALE + correction(climate), CORRECTION_SCALE as int)
}

/// A product of non-negative factors grows with each factor.
proof fn lemma_product_increases(x: int, y: int, a: int, b: int)
    by (nonlinear_arith)
    requires
        0 <= x <= y,
        0 <= a <= b,
    ensures
        0 <= x * a <= y * b,
        x < y && a < b ==> x * a < y * b,
{
}

/// Tenth powers grow with their base.
pub proof fn lemma_pow10_increases(a: int, b: int)
    requires
        0 <= a <= b,
    ensures
        0 <= pow10(a) <= pow10(b),
        a < b ==> pow10(a) < pow10(b),
{
    lemma_product_increases(a, b, a, b);
    lemma_product_increases(a * a, b * b, a, b);
    lemma_product_increases(a * a * a, b * b * b, a, b);
    lemma_product_increases(a * a * a * a, b * b * b * b, a, b);
    lemma_product_increases(a * a * a * a * a, b * b * b * b * b, a, b);
    lemma_product_increases(a * a * a * a * a * a, b * b * b * b * b * b, a, b);
    lemma_product_increases(a * a * a * a * a * a * a, b * b * b * b * b * b * b, a, b);
    lemma_product_increases(a * a * a * a * a * a * a * a, b * b * b * b * b * b * b * b, a, b);
    lemma_product_increases(
        a * a * a * a * a * a * a * a * a,
        b * b * b * b * b * b * b * b * b,
        a,
        b,
    );
}

/// At most one value is the height factor of a given height, so any value
/// that brackets the power is the factor.
pub proof fn lemma_height_factor_unique(height: int, y: int)
    requires
        is_height_factor(height, y),
    ensures
        height_factor(height) == y,
{
    let z = height_factor(height);
    assert(is_height_factor(height, z));
    if z < y {
        lemma_pow10_increases(z + 1, y);
    } else if y < z {
        lemma_pow10_increases(y + 1, z);
    }
}

/// Between a value that fits and a larger one that does not lies a height
/// factor.
proof fn lemma_height_factor_between(height: int, lo: int, hi: int)
    requires
        0 <= lo < hi,
        factor_fits(height, lo),
        !factor_fits(height, hi),
    ensures
        exists|y: int| is_height_factor(height, y),
    decreases hi - lo,
{
    if factor_fits(height, lo + 1) {
        lemma_height_factor_between(height, lo + 1, hi);
    } else {
        assert(is_height_factor(height, lo));
    }
}

/// Every canopy height from zero up has a height factor.
pub proof fn lemma_height_factor_exists(height: int)
    requires
        0 <= height,
    ensures
        is_height_factor(height, height_factor(height)),
{
    let hi = 1000 * height + 1000;
    let seventh = hi * hi * hi * hi * hi * hi * hi;
    lemma_product_increases(1_000, hi, 1_000, hi);
    lemma_product_increases(1_000_000, hi * hi, 1_000, hi);
    lemma_product_increases(1_000_000_000, hi * hi * hi, 1_000, hi);
    lemma_product_increases(1_000_000_000_000, hi * hi * hi * hi, 1_000, hi);
    lemma_product_increases(1_000_000_000_000_000, hi * hi * hi * hi * hi, 1_000, hi);
    lemma_product_increases(1_000_000_000_000_000_000, hi * hi * hi * hi * hi * hi, 1_000, hi);
    assert(seventh >= 1_000_000_000_000_000_000_000);
    lemma_product_increases(height, hi, height, hi);
    lemma_product_increases(height * height, hi * hi, height, hi);
    assert(0 <= cube(height) <= cube(hi));
    assert(cube(hi) > 0) by (nonlinear_arith)
        requires
            hi >= 1000,
    ;
    assert(pow10(hi) == seventh * cube(hi)) by (nonlinear_arith)
        requires
            seventh == hi * hi * hi * hi * hi * hi * hi,
    ;
    assert(seventh * cube(hi) >= 1_000_000_000_000_000_000_000 * cube(hi)) by (nonlinear_arith)
        requires
            seventh >= 1_000_000_000_000_000_000_000,
            cube(hi) > 0,
    ;
    assert(1_000_000_000_000_000_000_000 * cube(hi) >= 1_000_000_000_000_000_000_000 * cube(
        height,
    )) by (nonlinear_arith)
        requires
            cube(height) <= cube(hi),
    ;
    assert(pow10(0) == 0) by (nonlinear_arith);
    assert(1_000_000_000_000_000_000_000 * cube(height) >= 0) by (nonlinear_arith)
        requires
            cube(height) >= 0,
    ;
    lemma_height_factor_between(height, 0, hi);
}

/// The tenth power of a value below `FACTOR_LIMIT`, which fits in 120 bits.
fn pow10_below_limit(y: u16) -> (p: u128)
    requires
        y < FACTOR_LIMIT,
    ensures
        p == pow10(y as int),
        p < 0x1_0000_0000_0000_0000_0000_0000_0000_00,
{
    let y1: u128 = y as u128;
    assert(y1 * y1 < 0x100_0000) by (nonlinear_arith)
        requires
            y1 < 0x1000,
    ;
    let y2: u128 = y1 * y1;
    assert(y2 * y2 < 0x1_0000_0000_0000) by (nonlinear_arith)
        requires
            y2 < 0x100_0000,
    ;
    let y4: u128 = y2 * y2;
    assert(y4 * y4 < 0x1_0000_0000_0000_0000_0000_0000) by (nonlinear_arith)
        requires
            y4 < 0x1_0000_0000_0000,
    ;
    let y8: u128 = y4 * y4;
    assert(y8 * y2 < 0x1_0000_0000_0000_0000_0000_0000_0000_00) by (nonlinear_arith)
        requires
            y8 < 0x1_0000_0000_0000_0000_0000_0000,
            y2 < 0x100_0000,
    ;
    assert(y8 * y2 == pow10(y1 as int)) by (nonlinear_arith)
        requires
            y2 == y1 * y1,
            y4 == y2 * y2,
            y8 == y4 * y4,
    ;
    y8 * y2
}

/// Computes `(h / 3)^0.3` in thousandths, rounded down, for a canopy height
/// in millimetres.
pub fn height_factor_of(height: u16) -> (y: u16)
    ensures
        y == height_factor(height as int),
        is_height_factor(height as int, y as int),
        y < FACTOR_LIMIT,
{
    let h: u128 = height as u128;
    assert(h * h < 0x1_0000_0000) by (nonlinear_arith)
        requires
            h < 0x1_0000,
    ;
    let h2: u128 = h * h;
    assert(h2 * h < 0x1_0000_0000_0000) by (nonlinear_arith)
        requires
            h2 < 0x1_0000_0000,
            h < 0x1_0000,
    ;
    let h3: u128 = h2 * h;
    let target: u128 = 1_000_000_000_000_000_000_000 * h3;
    let mut lo: u16 = 0;
    let mut hi: u16 = FACTOR_LIMIT;
    assert(pow10(0) == 0) by (nonlinear_arith);
    assert(pow10(4096) == 0x1_0000_0000_0000_0000_0000_0000_0000_00) by (nonlinear_arith);
    while hi - lo > 1
        invariant
            lo < hi <= FACTOR_LIMIT,
            target == 1_000_000_000_000_000_000_000 * cube(height as int),
            factor_fits(height as int, lo as int),
            !factor_fits(height as int, hi as int),
        decreases hi - lo,
    {
        let mid: u16 = lo + (hi - lo) / 2;
        let p: u128 = pow10_below_limit(mid);
        if 27 * p <= target {
            lo = mid;
        } else {
            hi = mid;
        }
    }
    proof {
        lemma_height_factor_unique(height as int, lo as int);
    }
    lo
}

/// Computes the correction in units of 10^-10 for a wind speed in thousandths
/// of m/s, a humidity in thousandths of a percent and a height in
/// millimetres. The humidity may be any value that `humidity_percent` yields
/// for an `i32`.
pub fn correction_of(wind: i32, humidity: i64, height: u16) -> (c: i64)
    requires
        -214_748_364_800 <= humidity <= i32::MAX,
    ensures
        c == correction(Climate { wind: wind as int, humidity: humidity as int, height: height as int }),
        -0x20_0000_0000_0000 < c < 0x20_0000_0000_0000,
{
    let term: i64 = 400 * (wind as i64 - REFERENCE_WIND as i64) - 4 * (humidity
        - REFERENCE_HUMIDITY as i64);
    let factor: i64 = height_factor_of(height) as i64;
    assert(-0x20_0000_0000_0000 < term * factor < 0x20_0000_0000_0000) by (nonlinear_arith)
        requires
            -0x200_0000_0000 < term < 0x200_0000_0000,
            0 <= factor < 0x1000,
    ;
    term * factor
}

/// Applies the FAO-56 correction to a coefficient. The coefficient and the
/// result are in thousandths, the wind speed in thousandths of m/s, the
/// humidity in thousandths of a percent and the height in millimetres. The
/// humidity is used as given: a fraction of one is not converted here.
pub fn adjust_kc(kc_given: i32, wind_speed: i32, rh_min: i32, crop_height: u16) -> (kc: i64)
    ensures
        kc == adjusted_kc(
            kc_given as int,
            Climate { wind: wind_speed as int, humidity: rh_min as int, height: crop_height as int },
        ),
{
    let c: i64 = correction_of(wind_speed, rh_min as i64, crop_height);
    let scale: i128 = CORRECTION_SCALE as i128;
    assert(kc_given * scale == kc_given * 10_000_000) by (nonlinear_arith)
        requires
            scale == 10_000_000,
    ;
    let num: i128 = kc_given as i128 * scale + c as i128;
    proof {
        lemma_round_within(num as int, scale as int, 0x1_0000_0000);
    }
    round_ratio(num, scale) as i64
}

/// At the reference wind speed and humidity the correction vanishes, so the
/// coefficient comes back unchanged whatever the canopy height.
pub proof fn lemma_reference_climate_is_neutral(kc: int, height: int)
    ensures
        correction(
            Climate { wind: REFERENCE_WIND as int, humidity: REFERENCE_HUMIDITY as int, height },
        ) == 0,
        adjusted_kc(
            kc,
            Climate { wind: REFERENCE_WIND as int, humidity: REFERENCE_HUMIDITY as int, height },
        ) == kc,
{
    let climate = Climate {
        wind: REFERENCE_WIND as int,
        humidity: REFERENCE_HUMIDITY as int,
        height,
    };
    assert(climate_term(climate.wind, climate.humidity) == 0);
    assert(correction(climate) == 0) by (nonlinear_arith)
        requires
            correction(climate) == climate_term(climate.wind, climate.humidity) * height_factor(
                climate.height,
            ),
            climate_term(climate.wind, climate.humidity) == 0,
    ;
    lemma_round_whole(kc, CORRECTION_SCALE as int);
}

} // verus!
