//! The four-stage crop coefficient curve: which stage a position falls in,
//! the coefficient that the curve gives there, and when the climate
//! correction applies.
//!
//! A position is either a cumulative heat sum or a number of days since
//! planting; the curve does not care which.
use vstd::prelude::*;
use crate::adjust::Climate;
use crate::adjust::EnvironmentalFactors;
use crate::adjust::correction;
use crate::adjust::correction_of;
use crate::adjust::humidity_percent;
use crate::adjust::in_percent;
use crate::adjust::CORRECTION_SCALE;
use crate::adjust::FRACTION_LIMIT;
use crate::rounding::Ratio;
use crate::rounding::round_ratio;
use crate::rounding::lemma_round_within;

verus! {

/// Highest coefficient that a valid profile may hold (2.0).
pub const MAX_KC: u16 = 2_000;

/// In the late stage the climate correction applies only to a coefficient
/// above this level (0.45).
pub const LATE_CORRECTION_FLOOR: i64 = 450;

/// Results are rounded to a multiple of this many thousandths, that is to two
/// decimal places.
pub const RESULT_STEP: i64 = 10;

/// The phase of the crop's life cycle.
#[derive(Debug, Clone, Copy, PartialEq, Eq, Structural)]
pub enum GrowthStage {
    Initial,
    Development,
    Mid,
    Late,
}

/// The end of a stage in the model: the position at which it ends and the
/// coefficient reached there, in thousandths.
pub struct Breakpoint {
    pub threshold: int,
    pub kc: int,
}

/// The four breakpoints of a crop in the model.
pub struct StageTable {
    pub initial: Breakpoint,
    pub development: Breakpoint,
    pub mid: Breakpoint,
    pub late: Breakpoint,
}

/// The end of a stage: the position at which it ends and the coefficient
/// reached there, in thousandths.
#[derive(Debug, Clone, Copy, PartialEq, Eq, Structural)]
pub struct StageBreakpoint {
    pub threshold: i32,
    pub kc: u16,
}

impl View for StageBreakpoint {
    type V = Breakpoint;

    open spec fn view(&self) -> Breakpoint {
        Breakpoint { threshold: self.threshold as int, kc: self.kc as int }
    }
}

/// The four breakpoints of a crop, in the order of the stages.
#[derive(Debug, Clone, Copy, PartialEq, Eq, Structural)]
pub struct StageCurve {
    pub initial: StageBreakpoint,
    pub development: StageBreakpoint,
    pub mid: StageBreakpoint,
    pub late: StageBreakpoint,
}

impl View for StageCurve {
    type V = StageTable;

    open spec fn view(&self) -> StageTable {
        StageTable {
            initial: self.initial@,
            development: self.development@,
            mid: self.mid@,
            late: self.late@,
        }
    }
}

/// A table that a constructor accepts: no threshold is negative and no
/// coefficient lies outside `[0, 2]`. The rule is the same for heat sums and
/// for day counts. That thresholds do not decrease from stage to stage is
/// expected of a table but not part of the rule.
pub open spec fn valid_table(table: StageTable) -> bool {
    &&& valid_breakpoint(table.initial)
    &&& valid_breakpoint(table.development)
    &&& valid_breakpoint(table.mid)
    &&& valid_breakpoint(table.late)
}

/// A breakpoint that a constructor accepts.
pub open spec fn valid_breakpoint(point: Breakpoint) -> bool {
    &&& 0 <= point.threshold
    &&& 0 <= point.kc <= MAX_KC
}

/// The stage that a position falls in. Each threshold is the last position
/// of its stage; everything past the mid threshold is late.
pub open spec fn stage_of(table: StageTable, position: int) -> GrowthStage {
    if position <= table.initial.threshold {
        GrowthStage::Initial
    } else if position <= table.development.threshold {
        GrowthStage::Development
    } else if position <= table.mid.threshold {
        GrowthStage::Mid
    } else {
        GrowthStage::Late
    }
}

/// The value at `position` of the straight line through `(x0, y0)` and
/// `(x1, y1)`, as an exact fraction with a positive denominator. Where the
/// two points share their position the line is not defined and the value is
/// `y1`.
pub open spec fn line_through(x0: int, y0: int, x1: int, y1: int, position: int) -> Ratio {
    if x1 == x0 {
        Ratio::whole(y1)
    } else if x1 > x0 {
        Ratio { num: y0 * (x1 - x0) + (y1 - y0) * (position - x0), den: x1 - x0 }
    } else {
        Ratio { num: y0 * (x0 - x1) + (y1 - y0) * (x0 - position), den: x0 - x1 }
    }
}

/// The coefficient of the curve at a position, before any correction, in
/// thousandths.
///
/// The initial stage holds its coefficient. The development and mid stages
/// run in a straight line from the previous breakpoint to their own. The
/// late stage runs along the line that takes the mid coefficient at the late
/// threshold and the late coefficient at the mid threshold: with `t` for a
/// threshold, `k` for a coefficient and `p` for the position, it is
/// `k_mid - (k_mid - k_late) (p - t_late) / (t_mid - t_late)`.
pub open spec fn base_kc(table: StageTable, position: int) -> Ratio {
    match stage_of(table, position) {
        GrowthStage::Initial => Ratio::whole(table.initial.kc),
        GrowthStage::Development => line_through(
            table.initial.threshold,
            table.initial.kc,
            table.development.threshold,
            table.development.kc,
            position,
        ),
        GrowthStage::Mid => line_through(
            table.development.threshold,
            table.development.kc,
            table.mid.threshold,
            table.mid.kc,
            position,
        ),
        GrowthStage::Late => line_through(
            table.late.threshold,
            table.mid.kc,
            table.mid.threshold,
            table.late.kc,
            position,
        ),
    }
}

/// Whether the climate correction applies at a position: always in the mid
/// stage, in the late stage only while the coefficient is above 0.45, and
/// never before.
pub open spec fn is_corrected(table: StageTable, position: int) -> bool {
    match stage_of(table, position) {
        GrowthStage::Initial => false,
        GrowthStage::Development => false,
        GrowthStage::Mid => true,
        GrowthStage::Late => base_kc(table, position).exceeds(LATE_CORRECTION_FLOOR as int),
    }
}

/// The coefficient at a position after the climate correction, where it
/// applies, and before rounding. A humidity given as a fraction of one is
/// read as a percentage.
pub open spec fn exact_kc(table: StageTable, position: int, climate: Climate) -> Ratio {
    if is_corrected(table, position) {
        base_kc(table, position).plus_fraction(
            correction(in_percent(climate)),
            CORRECTION_SCALE as int,
        )
    } else {
        base_kc(table, position)
    }
}

/// The coefficient that an evaluation returns, in thousandths: the exact
/// coefficient rounded to two decimal places, halves away from zero.
///
/// The solver does not divide by a threshold difference on its own. To
/// confirm a result on given numbers, assert it `by (nonlinear_arith)` with the
/// table and the climate written out in its `requires`; where the correction
/// applies, take the height factor from `adjust::lemma_height_factor_unique`
/// first and state it there as well.
pub open spec fn kc_at(table: StageTable, position: int, climate: Climate) -> int {
    exact_kc(table, position, climate).rounded_to(RESULT_STEP as int)
}

/// An exact fraction with a positive denominator, as the curve computes it.
#[derive(Debug, Clone, Copy, PartialEq, Eq, Structural)]
pub struct Fraction {
    pub num: i64,
    pub den: i64,
}

impl View for Fraction {
    type V = Ratio;

    open spec fn view(&self) -> Ratio {
        Ratio { num: self.num as int, den: self.den as int }
    }
}

/// Bound on the magnitude of an uncorrected coefficient that the curve can
/// yield from thresholds and positions of 32 bits, in thousandths (2 to the
/// power 49).
pub const BASE_LIMIT: i64 = 0x2_0000_0000_0000;

/// Bound on the magnitude of a corrected coefficient, in thousandths (2 to
/// the power 50).
pub const KC_LIMIT: i64 = 0x4_0000_0000_0000;

/// Computes the value at `position` of the line through `(x0, y0)` and
/// `(x1, y1)`.
fn line_at(x0: i32, y0: u16, x1: i32, y1: u16, position: i32) -> (r: Fraction)
    ensures
        r@ == line_through(x0 as int, y0 as int, x1 as int, y1 as int, position as int),
        0 < r.den < 0x1_0000_0000,
        -BASE_LIMIT < r.num < BASE_LIMIT,
{
    if x1 == x0 {
        Fraction { num: y1 as i64, den: 1 }
    } else {
        let run: i64 = if x1 > x0 {
            x1 as i64 - x0 as i64
        } else {
            x0 as i64 - x1 as i64
        };
        let offset: i64 = if x1 > x0 {
            position as i64 - x0 as i64
        } else {
            x0 as i64 - position as i64
        };
        let rise: i64 = y1 as i64 - y0 as i64;
        assert(-0x1_0000_0000_0000 < y0 * run < 0x1_0000_0000_0000) by (nonlinear_arith)
            requires
                0 <= y0 < 0x1_0000,
                0 < run < 0x1_0000_0000,
        ;
        assert(-0x1_0000_0000_0000 < rise * offset < 0x1_0000_0000_0000) by (nonlinear_arith)
            requires
                -0x1_0000 < rise < 0x1_0000,
                -0x1_0000_0000 < offset < 0x1_0000_0000,
        ;
        Fraction { num: y0 as i64 * run + rise * offset, den: run }
    }
}

/// Brings a humidity to thousandths of a percent.
fn humidity_in_percent(humidity: i32) -> (percent: i64)
    ensures
        percent == humidity_percent(humidity as int),
        -214_748_364_800 <= percent <= i32::MAX,
{
    if humidity < FRACTION_LIMIT {
        humidity as i64 * 100
    } else {
        humidity as i64
    }
}

/// Rounds `num / den` thousandths to two decimal places.
fn round_result(num: i128, den: i128) -> (kc: i64)
    requires
        0 < den < 0x100_0000_0000_0000,
        -(KC_LIMIT * den) <= num <= KC_LIMIT * den,
    ensures
        kc == (Ratio { num: num as int, den: den as int }).rounded_to(RESULT_STEP as int),
        -KC_LIMIT * 10 <= kc <= KC_LIMIT * 10,
{
    let step: i128 = RESULT_STEP as i128;
    assert(den * step == den * 10) by (nonlinear_arith)
        requires
            step == 10,
    ;
    assert(-0x400_0000_0000_0000_0000_0000_0000 <= num <= 0x400_0000_0000_0000_0000_0000_0000)
        by (nonlinear_arith)
        requires
            0 < den < 0x100_0000_0000_0000,
            -(KC_LIMIT * den) <= num <= KC_LIMIT * den,
            KC_LIMIT == 0x4_0000_0000_0000,
    ;
    let wide: i128 = den * step;
    proof {
        assert(-(KC_LIMIT * wide) <= num <= KC_LIMIT * wide) by (nonlinear_arith)
            requires
                0 < den,
                wide == den * 10,
                -(KC_LIMIT * den) <= num <= KC_LIMIT * den,
                KC_LIMIT == 0x4_0000_0000_0000,
        ;
        lemma_round_within(num as int, wide as int, KC_LIMIT as int);
    }
    let tens: i128 = round_ratio(num, wide);
    assert(step * tens == 10 * tens) by (nonlinear_arith)
        requires
            step == 10,
    ;
    (step * tens) as i64
}

impl StageCurve {
    /// Tells which stage a position falls in.
    pub fn stage_at(&self, position: i64) -> (stage: GrowthStage)
        ensures
            stage == stage_of(self@, position as int),
    {
        if position <= self.initial.threshold as i64 {
            GrowthStage::Initial
        } else if position <= self.development.threshold as i64 {
            GrowthStage::Development
        } else if position <= self.mid.threshold as i64 {
            GrowthStage::Mid
        } else {
            GrowthStage::Late
        }
    }

    /// Computes the exact coefficient of the curve at a position, before any
    /// correction and rounding.
    pub fn base_at(&self, position: i32) -> (base: Fraction)
        ensures
            base@ == base_kc(self@, position as int),
            0 < base.den < 0x1_0000_0000,
            -BASE_LIMIT < base.num < BASE_LIMIT,
    {
        match self.stage_at(position as i64) {
            GrowthStage::Initial => Fraction { num: self.initial.kc as i64, den: 1 },
            GrowthStage::Development => line_at(
                self.initial.threshold,
                self.initial.kc,
                self.development.threshold,
                self.development.kc,
                position,
            ),
            GrowthStage::Mid => line_at(
                self.development.threshold,
                self.development.kc,
                self.mid.threshold,
                self.mid.kc,
                position,
            ),
            GrowthStage::Late => line_at(
                self.late.threshold,
                self.mid.kc,
                self.mid.threshold,
                self.late.kc,
                position,
            ),
        }
    }

    /// Tells whether the climate correction applies at a position.
    pub fn corrects_at(&self, position: i32) -> (corrected: bool)
        ensures
            corrected == is_corrected(self@, position as int),
    {
        match self.stage_at(position as i64) {
            GrowthStage::Initial => false,
            GrowthStage::Development => false,
            GrowthStage::Mid => true,
            GrowthStage::Late => {
                let base = self.base_at(position);
                assert(LATE_CORRECTION_FLOOR * base.den == 450 * base.den) by (nonlinear_arith)
                    requires
                        LATE_CORRECTION_FLOOR == 450,
                ;
                base.num > LATE_CORRECTION_FLOOR * base.den
            },
        }
    }

    /// Evaluates the curve: the coefficient at a position under the given
    /// climate, in thousandths, rounded to two decimal places.
    ///
    /// Every position and every climate has a result. A position at or before
    /// the initial threshold, negative ones included, gives the initial
    /// coefficient; a stage of no length is passed over.
    pub fn evaluate(&self, position: i32, env: EnvironmentalFactors) -> (kc: i64)
        ensures
            kc == kc_at(self@, position as int, env@),
    {
        let base = self.base_at(position);
        let den: i128 = base.den as i128;
        let num: i128 = base.num as i128;
        assert(-(BASE_LIMIT * den) <= num <= BASE_LIMIT * den) by (nonlinear_arith)
            requires
                den >= 1,
                -BASE_LIMIT < num < BASE_LIMIT,
                BASE_LIMIT > 0,
        ;
        if self.corrects_at(position) {
            let c: i128 = correction_of(
                env.wind_speed,
                humidity_in_percent(env.min_relative_humidity),
                env.canopy_height,
            ) as i128;
            let scale: i128 = CORRECTION_SCALE as i128;
            assert(0 < den * scale < 0x100_0000_0000_0000) by (nonlinear_arith)
                requires
                    0 < den < 0x1_0000_0000,
                    scale == 10_000_000,
            ;
            assert(-(BASE_LIMIT * (den * scale)) <= num * scale <= BASE_LIMIT * (den * scale))
                by (nonlinear_arith)
                requires
                    -(BASE_LIMIT * den) <= num <= BASE_LIMIT * den,
                    scale > 0,
            ;
            assert(-(BASE_LIMIT * (den * scale)) <= c * den <= BASE_LIMIT * (den * scale))
                by (nonlinear_arith)
                requires
                    den >= 1,
                    -0x20_0000_0000_0000 < c < 0x20_0000_0000_0000,
                    scale == 10_000_000,
                    BASE_LIMIT == 0x2_0000_0000_0000,
            ;
            assert(KC_LIMIT * (den * scale) == BASE_LIMIT * (den * scale) + BASE_LIMIT * (den
                * scale)) by (nonlinear_arith)
                requires
                    KC_LIMIT == BASE_LIMIT + BASE_LIMIT,
            ;
            assert(BASE_LIMIT * (den * scale) < 0x2000_0000_0000_0000_0000_0000_0000)
                by (nonlinear_arith)
                requires
                    0 < den * scale < 0x100_0000_0000_0000,
                    BASE_LIMIT == 0x2_0000_0000_0000,
            ;
            round_result(num * scale + c * den, den * scale)
        } else {
            assert(KC_LIMIT * den == BASE_LIMIT * den + BASE_LIMIT * den) by (nonlinear_arith)
                requires
                    KC_LIMIT == BASE_LIMIT + BASE_LIMIT,
            ;
            round_result(num, den)
        }
    }
}

} // verus!
