//! What holds of every evaluation of a coefficient curve.
use vstd::prelude::*;
use crate::adjust::correction;
use crate::adjust::humidity_percent;
use crate::adjust::in_percent;
use crate::adjust::lemma_reference_climate_is_neutral;
use crate::adjust::Climate;
use crate::adjust::CORRECTION_SCALE;
use crate::adjust::FRACTION_LIMIT;
use crate::adjust::REFERENCE_HUMIDITY;
use crate::adjust::REFERENCE_WIND;
use crate::dates::days_between;
use crate::rounding::lemma_round_is_nearest;
use crate::rounding::lemma_round_is_unique;
use crate::rounding::lemma_round_scaled;
use crate::rounding::lemma_round_whole;
use crate::rounding::round_half_away;
use crate::rounding::Ratio;
use crate::stage::base_kc;
use crate::stage::exact_kc;
use crate::stage::is_corrected;
use crate::stage::kc_at;
use crate::stage::line_through;
use crate::stage::stage_of;
use crate::stage::GrowthStage;
use crate::stage::StageTable;
use crate::stage::LATE_CORRECTION_FLOOR;
use crate::stage::RESULT_STEP;
use chrono::NaiveDate;

verus! {

/// The straight line between two distinct points passes through both, and
/// its value always has a positive denominator.
pub proof fn lemma_line_through_endpoints(x0: int, y0: int, x1: int, y1: int, position: int)
    ensures
        line_through(x0, y0, x1, y1, position).den > 0,
        x0 != x1 ==> line_through(x0, y0, x1, y1, x0).num == y0 * line_through(
            x0,
            y0,
            x1,
            y1,
            x0,
        ).den,
        x0 != x1 ==> line_through(x0, y0, x1, y1, x1).num == y1 * line_through(
            x0,
            y0,
            x1,
            y1,
            x1,
        ).den,
{
    if x1 > x0 {
        assert(y0 * (x1 - x0) + (y1 - y0) * (x1 - x0) == y1 * (x1 - x0)) by (nonlinear_arith);
        assert((y1 - y0) * (x0 - x0) == 0) by (nonlinear_arith);
    } else if x1 < x0 {
        assert(y0 * (x0 - x1) + (y1 - y0) * (x0 - x1) == y1 * (x0 - x1)) by (nonlinear_arith);
        assert((y1 - y0) * (x0 - x0) == 0) by (nonlinear_arith);
    }
}

/// Halfway between two distinct points the straight line takes the mean of
/// the two values.
pub proof fn lemma_line_through_midpoint(x0: int, y0: int, x1: int, y1: int, middle: int)
    requires
        x0 != x1,
        middle + middle == x0 + x1,
    ensures
        2 * line_through(x0, y0, x1, y1, middle).num == (y0 + y1) * line_through(
            x0,
            y0,
            x1,
            y1,
            middle,
        ).den,
{
    if x1 > x0 {
        assert(2 * (y0 * (x1 - x0) + (y1 - y0) * (middle - x0)) == (y0 + y1) * (x1 - x0))
            by (nonlinear_arith)
            requires
                middle + middle == x0 + x1,
        ;
    } else {
        assert(2 * (y0 * (x0 - x1) + (y1 - y0) * (x0 - middle)) == (y0 + y1) * (x0 - x1))
            by (nonlinear_arith)
            requires
                middle + middle == x0 + x1,
        ;
    }
}

/// The development stage and the mid stage each end on their own
/// coefficient: at a threshold that lies after the previous one the
/// uncorrected coefficient is the one of that threshold.
pub proof fn lemma_stage_ends_on_its_coefficient(table: StageTable)
    ensures
        table.initial.threshold < table.development.threshold ==> base_kc(
            table,
            table.development.threshold,
        ).num == table.development.kc * base_kc(table, table.development.threshold).den,
        table.initial.threshold <= table.development.threshold < table.mid.threshold ==> base_kc(
            table,
            table.mid.threshold,
        ).num == table.mid.kc * base_kc(table, table.mid.threshold).den,
{
    lemma_line_through_endpoints(
        table.initial.threshold,
        table.initial.kc,
        table.development.threshold,
        table.development.kc,
        table.development.threshold,
    );
    lemma_line_through_endpoints(
        table.development.threshold,
        table.development.kc,
        table.mid.threshold,
        table.mid.kc,
        table.mid.threshold,
    );
}

/// No table and no position lead to a division by zero: the uncorrected
/// coefficient always has a positive denominator, also where two thresholds
/// coincide.
pub proof fn lemma_kc_is_defined(table: StageTable, position: int, climate: Climate)
    ensures
        base_kc(table, position).den > 0,
        exact_kc(table, position, climate).den > 0,
{
    let base = base_kc(table, position);
    lemma_line_through_endpoints(
        table.initial.threshold,
        table.initial.kc,
        table.development.threshold,
        table.development.kc,
        position,
    );
    lemma_line_through_endpoints(
        table.development.threshold,
        table.development.kc,
        table.mid.threshold,
        table.mid.kc,
        position,
    );
    lemma_line_through_endpoints(
        table.late.threshold,
        table.mid.kc,
        table.mid.threshold,
        table.late.kc,
        position,
    );
    assert(base.den * CORRECTION_SCALE > 0) by (nonlinear_arith)
        requires
            base.den > 0,
            CORRECTION_SCALE > 0,
    ;
}

/// A stage of no length is passed over: where the development threshold
/// equals the initial one no position is in the development stage, where the
/// mid threshold equals the development one no position is in the mid stage,
/// and where the late threshold equals the mid one every late position has
/// the late coefficient before correction.
pub proof fn lemma_zero_length_stage(table: StageTable, position: int)
    ensures
        table.development.threshold == table.initial.threshold ==> stage_of(table, position)
            != GrowthStage::Development,
        table.mid.threshold == table.development.threshold ==> stage_of(table, position)
            != GrowthStage::Mid,
        table.late.threshold == table.mid.threshold && stage_of(table, position)
            == GrowthStage::Late ==> base_kc(table, position) == Ratio::whole(table.late.kc),
{
}

/// Whether `kc` is a multiple of ten thousandths that lies within five
/// thousandths of the exact value, on the far side from zero where the exact
/// value is halfway between two such multiples.
pub open spec fn is_nearest_hundredth(kc: int, exact: Ratio) -> bool {
    &&& kc % 10 == 0
    &&& exact.num >= 0 ==> -5 * exact.den <= exact.num - kc * exact.den < 5 * exact.den
    &&& exact.num < 0 ==> -5 * exact.den < exact.num - kc * exact.den <= 5 * exact.den
}

/// Every result is the hundredth nearest to the exact coefficient.
pub proof fn lemma_result_is_nearest(table: StageTable, position: int, climate: Climate)
    ensures
        is_nearest_hundredth(kc_at(table, position, climate), exact_kc(table, position, climate)),
{
    let exact = exact_kc(table, position, climate);
    let step = RESULT_STEP as int;
    lemma_kc_is_defined(table, position, climate);
    lemma_result_has_two_decimals(table, position, climate);
    assert(exact.den * step > 0) by (nonlinear_arith)
        requires
            exact.den > 0,
            step > 0,
    ;
    let tens = round_half_away(exact.num, exact.den * step);
    lemma_round_is_nearest(exact.num, exact.den * step);
    assert(2 * (exact.num - tens * (exact.den * step)) == 2 * (exact.num - (step * tens)
        * exact.den)) by (nonlinear_arith);
    assert(exact.den * step == 10 * exact.den) by (nonlinear_arith)
        requires
            step == 10,
    ;
}

/// No other value is the hundredth nearest to the exact coefficient: a value
/// that is, is the result.
pub proof fn lemma_nearest_is_result(table: StageTable, position: int, climate: Climate, kc: int)
    requires
        is_nearest_hundredth(kc, exact_kc(table, position, climate)),
    ensures
        kc_at(table, position, climate) == kc,
{
    let exact = exact_kc(table, position, climate);
    let step = RESULT_STEP as int;
    lemma_kc_is_defined(table, position, climate);
    assert(exact.den * step > 0) by (nonlinear_arith)
        requires
            exact.den > 0,
            step > 0,
    ;
    let tens = kc / step;
    assert(kc == step * tens) by (nonlinear_arith)
        requires
            kc % step == 0,
            tens == kc / step,
            step == 10,
    ;
    assert(2 * (exact.num - tens * (exact.den * step)) == 2 * (exact.num - kc * exact.den))
        by (nonlinear_arith)
        requires
            kc == step * tens,
    ;
    assert(exact.den * step == 10 * exact.den) by (nonlinear_arith)
        requires
            step == 10,
    ;
    lemma_round_is_unique(exact.num, exact.den * step, tens);
}

/// Every result is a whole number of hundredths.
pub proof fn lemma_result_has_two_decimals(table: StageTable, position: int, climate: Climate)
    ensures
        kc_at(table, position, climate) % (RESULT_STEP as int) == 0,
{
    let exact = exact_kc(table, position, climate);
    let tens = round_half_away(exact.num, exact.den * RESULT_STEP);
    assert((RESULT_STEP * tens) % (RESULT_STEP as int) == 0) by (nonlinear_arith)
        requires
            RESULT_STEP == 10,
    ;
}

/// Up to the initial threshold the result is the initial coefficient, rounded
/// to two decimal places, whatever the climate; an initial coefficient that
/// has no more than two decimal places comes back as it is.
pub proof fn lemma_initial_stage_is_flat(table: StageTable, position: int, climate: Climate)
    requires
        position <= table.initial.threshold,
    ensures
        kc_at(table, position, climate) == Ratio::whole(table.initial.kc).rounded_to(
            RESULT_STEP as int,
        ),
        table.initial.kc % (RESULT_STEP as int) == 0 ==> kc_at(table, position, climate)
            == table.initial.kc,
{
    let kc = table.initial.kc;
    if kc % (RESULT_STEP as int) == 0 {
        let tens = kc / (RESULT_STEP as int);
        assert(kc == tens * (1 * RESULT_STEP)) by (nonlinear_arith)
            requires
                kc % (RESULT_STEP as int) == 0,
                tens == kc / (RESULT_STEP as int),
                RESULT_STEP == 10,
        ;
        lemma_round_whole(tens, 1 * RESULT_STEP);
        assert(RESULT_STEP * tens == kc) by (nonlinear_arith)
            requires
                kc == tens * (1 * RESULT_STEP),
        ;
    }
}

/// A negative position lies in the initial stage of every table whose
/// initial threshold is not negative, and so of every valid table: the result
/// is the initial coefficient, rounded to two decimal places and not
/// corrected for the climate.
pub proof fn lemma_negative_position(table: StageTable, position: int, climate: Climate)
    requires
        0 <= table.initial.threshold,
        position < 0,
    ensures
        stage_of(table, position) == GrowthStage::Initial,
        kc_at(table, position, climate) == Ratio::whole(table.initial.kc).rounded_to(
            RESULT_STEP as int,
        ),
        table.initial.kc % (RESULT_STEP as int) == 0 ==> kc_at(table, position, climate)
            == table.initial.kc,
{
    lemma_initial_stage_is_flat(table, position, climate);
}

/// A date before planting lies in the initial stage like any other negative
/// position.
pub proof fn lemma_date_before_planting(
    table: StageTable,
    planting_date: NaiveDate,
    date: NaiveDate,
    climate: Climate,
)
    requires
        0 <= table.initial.threshold,
        days_between(planting_date, date) < 0,
    ensures
        kc_at(table, days_between(planting_date, date), climate) == Ratio::whole(
            table.initial.kc,
        ).rounded_to(RESULT_STEP as int),
{
    lemma_negative_position(table, days_between(planting_date, date), climate);
}

/// At the reference wind speed and humidity the result is the uncorrected
/// coefficient of the curve, rounded to two decimal places: in the mid stage
/// and everywhere else, whatever the canopy height.
pub proof fn lemma_reference_climate(table: StageTable, position: int, height: int)
    ensures
        kc_at(
            table,
            position,
            Climate { wind: REFERENCE_WIND as int, humidity: REFERENCE_HUMIDITY as int, height },
        ) == base_kc(table, position).rounded_to(RESULT_STEP as int),
{
    let climate = Climate {
        wind: REFERENCE_WIND as int,
        humidity: REFERENCE_HUMIDITY as int,
        height,
    };
    let base = base_kc(table, position);
    if is_corrected(table, position) {
        lemma_kc_is_defined(table, position, climate);
        lemma_reference_climate_is_neutral(0, height);
        assert(in_percent(climate) == climate);
        let scale = CORRECTION_SCALE as int;
        let step = RESULT_STEP as int;
        assert(base.num * scale + 0 * base.den == base.num * scale) by (nonlinear_arith);
        assert((base.den * scale) * step == (base.den * step) * scale) by (nonlinear_arith);
        assert(base.den * step > 0) by (nonlinear_arith)
            requires
                base.den > 0,
                step > 0,
        ;
        lemma_round_scaled(base.num, base.den * step, scale);
    }
}

/// In the late stage a coefficient of at most 0.45 is never corrected, so the
/// result does not depend on the climate; a coefficient above 0.45 always is.
pub proof fn lemma_late_stage_correction(
    table: StageTable,
    position: int,
    climate: Climate,
    other: Climate,
)
    requires
        stage_of(table, position) == GrowthStage::Late,
    ensures
        !base_kc(table, position).exceeds(LATE_CORRECTION_FLOOR as int) ==> {
            &&& kc_at(table, position, climate) == base_kc(table, position).rounded_to(
                RESULT_STEP as int,
            )
            &&& kc_at(table, position, climate) == kc_at(table, position, other)
        },
        base_kc(table, position).exceeds(LATE_CORRECTION_FLOOR as int) ==> kc_at(
            table,
            position,
            climate,
        ) == base_kc(table, position).plus_fraction(
            correction(in_percent(climate)),
            CORRECTION_SCALE as int,
        ).rounded_to(RESULT_STEP as int),
{
}

/// A humidity given as a fraction of one counts as the same number of
/// percent: 0.45 as 45 %. This holds of every fraction from 0.01 up, and of 0.
pub proof fn lemma_fraction_is_percentage(
    table: StageTable,
    position: int,
    wind: int,
    humidity: int,
    height: int,
)
    requires
        humidity == 0 || 10 <= humidity < FRACTION_LIMIT,
    ensures
        humidity_percent(humidity) == humidity_percent(100 * humidity),
        kc_at(table, position, Climate { wind, humidity, height }) == kc_at(
            table,
            position,
            Climate { wind, humidity: 100 * humidity, height },
        ),
{
    assert(in_percent(Climate { wind, humidity, height }) == in_percent(
        Climate { wind, humidity: 100 * humidity, height },
    ));
}

} // verus!
