//! Crop coefficients indexed by cumulative growing degree days.
use vstd::prelude::*;
use crate::adjust::climate_from;
use crate::adjust::EnvironmentalFactors;
use crate::adjust::DEFAULT_CANOPY_HEIGHT;
use crate::fault::ConfigError;
use crate::stage::kc_at;
use crate::stage::valid_table;
use crate::stage::Breakpoint;
use crate::stage::StageBreakpoint;
use crate::stage::StageCurve;
use crate::stage::StageTable;
use crate::stage::MAX_KC;

verus! {

/// The coefficient curve of one crop over cumulative growing degree days.
/// Each stage is a pair of the heat sum at which the stage ends, in
/// thousandths of a degree day, and the coefficient reached there, in
/// thousandths. The heat sums must be in the unit in which the crop's
/// coefficients were calibrated.
///
/// Every profile is valid: `new` is the only way to make one.
pub struct CropCoefficientsGdd {
    crop_name: String,
    initial_end_kc: (i32, u16),
    development_end_kc: (i32, u16),
    mid_end_kc: (i32, u16),
    late_end_kc: (i32, u16),
}

/// The breakpoint that a pair of threshold and coefficient stands for.
pub open spec fn breakpoint_of(stage: (i32, u16)) -> Breakpoint {
    Breakpoint { threshold: stage.0 as int, kc: stage.1 as int }
}

/// What is wrong with four stages, if anything: a negative threshold, or
/// else a coefficient above 2.
pub open spec fn stage_fault(
    initial_end_kc: (i32, u16),
    development_end_kc: (i32, u16),
    mid_end_kc: (i32, u16),
    late_end_kc: (i32, u16),
) -> Option<ConfigError> {
    if initial_end_kc.0 < 0 || development_end_kc.0 < 0 || mid_end_kc.0 < 0 || late_end_kc.0 < 0 {
        Some(ConfigError::NegativeStageLength)
    } else if initial_end_kc.1 > MAX_KC || development_end_kc.1 > MAX_KC || mid_end_kc.1 > MAX_KC
        || late_end_kc.1 > MAX_KC {
        Some(ConfigError::KcAboveTwo)
    } else {
        None
    }
}

impl View for CropCoefficientsGdd {
    type V = StageTable;

    closed spec fn view(&self) -> StageTable {
        StageTable {
            initial: breakpoint_of(self.initial_end_kc),
            development: breakpoint_of(self.development_end_kc),
            mid: breakpoint_of(self.mid_end_kc),
            late: breakpoint_of(self.late_end_kc),
        }
    }
}

impl CropCoefficientsGdd {
    /// No threshold is negative and no coefficient exceeds 2.
    #[verifier::type_invariant]
    spec fn well_formed(&self) -> bool {
        stage_fault(
            self.initial_end_kc,
            self.development_end_kc,
            self.mid_end_kc,
            self.late_end_kc,
        ) is None
    }

    /// The crop's name.
    pub closed spec fn name(&self) -> Seq<char> {
        self.crop_name@
    }

    /// Builds the profile of a crop from its name and its four stages.
    ///
    /// A negative threshold or a coefficient above 2 is a configuration
    /// error, which the caller must rule out.
    pub fn new(
        crop_name: String,
        initial_end_kc: (i32, u16),
        development_end_kc: (i32, u16),
        mid_end_kc: (i32, u16),
        late_end_kc: (i32, u16),
    ) -> (cc: CropCoefficientsGdd)
        requires
            stage_fault(initial_end_kc, development_end_kc, mid_end_kc, late_end_kc) is None,
        ensures
            cc.name() == crop_name@,
            cc@ == (StageTable {
                initial: breakpoint_of(initial_end_kc),
                development: breakpoint_of(development_end_kc),
                mid: breakpoint_of(mid_end_kc),
                late: breakpoint_of(late_end_kc),
            }),
            valid_table(cc@),
    {
        CropCoefficientsGdd {
            crop_name,
            initial_end_kc,
            development_end_kc,
            mid_end_kc,
            late_end_kc,
        }
    }

    /// Tells what `new` would object to in the four stages, if anything.
    pub fn find_fault(
        initial_end_kc: (i32, u16),
        development_end_kc: (i32, u16),
        mid_end_kc: (i32, u16),
        late_end_kc: (i32, u16),
    ) -> (fault: Option<ConfigError>)
        ensures
            fault == stage_fault(initial_end_kc, development_end_kc, mid_end_kc, late_end_kc),
    {
        if initial_end_kc.0 < 0 || development_end_kc.0 < 0 || mid_end_kc.0 < 0 || late_end_kc.0
            < 0 {
            Some(ConfigError::NegativeStageLength)
        } else if initial_end_kc.1 > MAX_KC || development_end_kc.1 > MAX_KC || mid_end_kc.1
            > MAX_KC || late_end_kc.1 > MAX_KC {
            Some(ConfigError::KcAboveTwo)
        } else {
            None
        }
    }

    /// The profile's four breakpoints as a curve.
    pub fn curve(&self) -> (curve: StageCurve)
        ensures
            curve@ == self@,
            valid_table(self@),
    {
        proof {
            use_type_invariant(self);
        }
        StageCurve {
            initial: StageBreakpoint {
                threshold: self.initial_end_kc.0,
                kc: self.initial_end_kc.1,
            },
            development: StageBreakpoint {
                threshold: self.development_end_kc.0,
                kc: self.development_end_kc.1,
            },
            mid: StageBreakpoint { threshold: self.mid_end_kc.0, kc: self.mid_end_kc.1 },
            late: StageBreakpoint { threshold: self.late_end_kc.0, kc: self.late_end_kc.1 },
        }
    }
}

/// Gives the crop's name and its coefficient at a cumulative heat sum.
///
/// The heat sum is in thousandths of a degree day, the wind speed in
/// thousandths of m/s, the humidity in thousandths of a percent (or of a
/// fraction of one) and the height in millimetres; the coefficient comes
/// back in thousandths, rounded to two decimal places. An absent wind speed
/// is 2 m/s, an absent humidity 45 % and an absent height 1.391 m.
pub fn crop_coefficient_gdd(
    cumulative_gdd: i32,
    cc: CropCoefficientsGdd,
    wind_speed: Option<i32>,
    rh_min: Option<i32>,
    crop_height: Option<u16>,
) -> (result: (String, i64))
    ensures
        result.0@ == cc.name(),
        result.1 == kc_at(
            cc@,
            cumulative_gdd as int,
            climate_from(wind_speed, rh_min, crop_height, DEFAULT_CANOPY_HEIGHT),
        ),
        valid_table(cc@),
{
    let env = EnvironmentalFactors::from_options(
        wind_speed,
        rh_min,
        crop_height,
        DEFAULT_CANOPY_HEIGHT,
    );
    let kc = cc.curve().evaluate(cumulative_gdd, env);
    (cc.crop_name, kc)
}

} // verus!
