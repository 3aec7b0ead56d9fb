//! Crop coefficients indexed by days since planting, and the conversion of
//! crop records into such profiles.
use vstd::prelude::*;
use chrono::NaiveDate;
use crate::adjust::climate_from;
use crate::adjust::EnvironmentalFactors;
use crate::adjust::DEFAULT_CANOPY_HEIGHT;
use crate::dates::days_between;
use crate::dates::days_since;
use crate::fault::ConfigError;
use crate::stage::kc_at;
use crate::stage::stage_of;
use crate::stage::valid_table;
use crate::stage::Breakpoint;
use crate::stage::GrowthStage;
use crate::stage::StageBreakpoint;
use crate::stage::StageCurve;
use crate::stage::StageTable;
use crate::stage::MAX_KC;

verus! {

/// The end of a stage: the number of days after planting on which it ends
/// and the coefficient reached there, in thousandths.
#[derive(Debug, Clone, Copy, PartialEq, Eq, Structural)]
pub struct KcStage {
    pub days: u16,
    pub kc: u16,
}

impl View for KcStage {
    type V = Breakpoint;

    open spec fn view(&self) -> Breakpoint {
        Breakpoint { threshold: self.days as int, kc: self.kc as int }
    }
}

impl KcStage {
    /// Pairs a day count with a coefficient.
    pub fn new(days: u16, kc: u16) -> (stage: Self)
        ensures
            stage.days == days,
            stage.kc == kc,
    {
        KcStage { days, kc }
    }
}

/// The coefficient curve of one crop over the days since planting, with the
/// crop's planting date and canopy height. The day counts are cumulative:
/// each is the last day of its stage, counted from planting.
#[derive(Debug)]
pub struct CropCoefficientsGs {
    pub crop_name: String,
    pub initial_end_kc: KcStage,
    pub development_end_kc: KcStage,
    pub mid_end_kc: KcStage,
    pub late_end_kc: KcStage,
    pub planting_date: NaiveDate,
    /// Canopy height in millimetres.
    pub crop_height: u16,
}

impl View for CropCoefficientsGs {
    type V = StageTable;

    open spec fn view(&self) -> StageTable {
        StageTable {
            initial: self.initial_end_kc@,
            development: self.development_end_kc@,
            mid: self.mid_end_kc@,
            late: self.late_end_kc@,
        }
    }
}

impl CropCoefficientsGs {
    /// Builds the profile of a crop from its name, its four stages as pairs
    /// of cumulative day count and coefficient, its planting date and its
    /// canopy height.
    ///
    /// A coefficient above 2 is a configuration error, which the caller must
    /// rule out.
    pub fn new(
        crop_name: String,
        initial_end_kc: (u16, u16),
        development_end_kc: (u16, u16),
        mid_end_kc: (u16, u16),
        late_end_kc: (u16, u16),
        planting_date: NaiveDate,
        crop_height: u16,
    ) -> (cc: CropCoefficientsGs)
        requires
            initial_end_kc.1 <= MAX_KC,
            development_end_kc.1 <= MAX_KC,
            mid_end_kc.1 <= MAX_KC,
            late_end_kc.1 <= MAX_KC,
        ensures
            cc.crop_name@ == crop_name@,
            cc.initial_end_kc == (KcStage { days: initial_end_kc.0, kc: initial_end_kc.1 }),
            cc.development_end_kc == (KcStage {
                days: development_end_kc.0,
                kc: development_end_kc.1,
            }),
            cc.mid_end_kc == (KcStage { days: mid_end_kc.0, kc: mid_end_kc.1 }),
            cc.late_end_kc == (KcStage { days: late_end_kc.0, kc: late_end_kc.1 }),
            cc.planting_date == planting_date,
            cc.crop_height == crop_height,
            valid_table(cc@),
    {
        CropCoefficientsGs {
            crop_name,
            initial_end_kc: KcStage::new(initial_end_kc.0, initial_end_kc.1),
            development_end_kc: KcStage::new(development_end_kc.0, development_end_kc.1),
            mid_end_kc: KcStage::new(mid_end_kc.0, mid_end_kc.1),
            late_end_kc: KcStage::new(late_end_kc.0, late_end_kc.1),
            planting_date,
            crop_height,
        }
    }

    /// Tells what `new` would object to in the four coefficients, if
    /// anything.
    pub fn find_fault(k_initial: u16, k_development: u16, k_mid: u16, k_late: u16) -> (fault: Option<
        ConfigError,
    >)
        ensures
            fault == (if k_initial <= MAX_KC && k_development <= MAX_KC && k_mid <= MAX_KC
                && k_late <= MAX_KC {
                None
            } else {
                Some(ConfigError::KcAboveTwo)
            }),
    {
        if k_initial <= MAX_KC && k_development <= MAX_KC && k_mid <= MAX_KC && k_late <= MAX_KC {
            None
        } else {
            Some(ConfigError::KcAboveTwo)
        }
    }

    /// The profile's four breakpoints as a curve.
    pub fn curve(&self) -> (curve: StageCurve)
        ensures
            curve@ == self@,
    {
        StageCurve {
            initial: StageBreakpoint {
                threshold: self.initial_end_kc.days as i32,
                kc: self.initial_end_kc.kc,
            },
            development: StageBreakpoint {
                threshold: self.development_end_kc.days as i32,
                kc: self.development_end_kc.kc,
            },
            mid: StageBreakpoint {
                threshold: self.mid_end_kc.days as i32,
                kc: self.mid_end_kc.kc,
            },
            late: StageBreakpoint {
                threshold: self.late_end_kc.days as i32,
                kc: self.late_end_kc.kc,
            },
        }
    }

    /// Tells which stage the crop is in, a number of days after planting. A
    /// day before planting belongs to the initial stage.
    pub fn determine_growth_stage(&self, days_since_planting: i64) -> (stage: GrowthStage)
        ensures
            stage == stage_of(self@, days_since_planting as int),
    {
        self.curve().stage_at(days_since_planting)
    }

    /// Gives the coefficient a number of days after planting, under the given
    /// climate, in thousandths and rounded to two decimal places.
    pub fn coefficient_after_days(&self, days_since_planting: i32, env: EnvironmentalFactors) -> (kc:
        i64)
        ensures
            kc == kc_at(self@, days_since_planting as int, env@),
    {
        self.curve().evaluate(days_since_planting, env)
    }

    /// Gives the coefficient on a date, counted from the profile's own
    /// planting date, in thousandths and rounded to two decimal places.
    ///
    /// The wind speed is in thousandths of m/s, the humidity in thousandths of
    /// a percent (or of a fraction of one) and the height in millimetres. An
    /// absent wind speed is 2 m/s, an absent humidity 45 % and an absent
    /// height the profile's own canopy height.
    pub fn coefficient_from_date(
        &self,
        date: NaiveDate,
        wind_speed: Option<i32>,
        rh_min: Option<i32>,
        crop_height: Option<u16>,
    ) -> (kc: i64)
        ensures
            kc == kc_at(
                self@,
                days_between(self.planting_date, date),
                climate_from(wind_speed, rh_min, crop_height, self.crop_height),
            ),
    {
        let days = days_since(date, self.planting_date);
        let env = EnvironmentalFactors::from_options(
            wind_speed,
            rh_min,
            crop_height,
            self.crop_height,
        );
        self.coefficient_after_days(days, env)
    }
}

/// Gives the crop's name and its coefficient on a date, counted from the
/// given planting date.
///
/// The wind speed is in thousandths of m/s, the humidity in thousandths of a
/// percent (or of a fraction of one) and the height in millimetres; the
/// coefficient comes back in thousandths, rounded to two decimal places. An
/// absent wind speed is 2 m/s, an absent humidity 45 % and an absent height
/// 1.391 m.
pub fn crop_coefficient_gs(
    planting_date: NaiveDate,
    date: NaiveDate,
    cc: CropCoefficientsGs,
    wind_speed: Option<i32>,
    rh_min: Option<i32>,
    crop_height: Option<u16>,
) -> (result: (String, i64))
    ensures
        result.0@ == cc.crop_name@,
        result.1 == kc_at(
            cc@,
            days_between(planting_date, date),
            climate_from(wind_speed, rh_min, crop_height, DEFAULT_CANOPY_HEIGHT),
        ),
{
    let days = days_since(date, planting_date);
    let env = EnvironmentalFactors::from_options(
        wind_speed,
        rh_min,
        crop_height,
        DEFAULT_CANOPY_HEIGHT,
    );
    let kc = cc.coefficient_after_days(days, env);
    (cc.crop_name, kc)
}

/// One crop of a coefficient table, as a configuration source describes it.
#[derive(Debug)]
pub struct CropRecord {
    pub name: String,
    /// Coefficient of the initial stage, in thousandths.
    pub k_ini: u16,
    /// Coefficient of the mid stage, in thousandths.
    pub k_mid: u16,
    /// Coefficient at the end of the season, in thousandths.
    pub k_end: u16,
    /// Canopy height, in thousandths of a metre.
    pub height_m: u16,
    /// Lengths in days of the initial, development, mid and late stage.
    pub growth_stages_days: Vec<i32>,
    pub planting_date: NaiveDate,
}

/// The first fault of a crop record, if it has one. The faults are looked
/// for in the order of the variants of `ConfigError`.
pub open spec fn record_error(record: CropRecord) -> Option<ConfigError> {
    let days = record.growth_stages_days@;
    if days.len() != 4 {
        Some(ConfigError::StageCount)
    } else if days[0] < 0 || days[1] < 0 || days[2] < 0 || days[3] < 0 {
        Some(ConfigError::NegativeStageLength)
    } else if days[0] + days[1] + days[2] + days[3] > u16::MAX {
        Some(ConfigError::SeasonTooLong)
    } else if record.k_ini > MAX_KC || record.k_mid > MAX_KC || record.k_end > MAX_KC {
        Some(ConfigError::KcAboveTwo)
    } else {
        None
    }
}

/// Whether `cc` is the profile of a crop record without fault: each stage
/// ends on the day that the lengths up to it add up to; the development and
/// the mid stage both end on the mid coefficient; name, planting date and
/// canopy height are the record's own.
pub open spec fn is_profile_of(cc: CropCoefficientsGs, record: CropRecord) -> bool {
    let days = record.growth_stages_days@;
    &&& cc.crop_name@ == record.name@
    &&& cc.initial_end_kc@ == Breakpoint { threshold: days[0] as int, kc: record.k_ini as int }
    &&& cc.development_end_kc@ == Breakpoint {
        threshold: days[0] + days[1],
        kc: record.k_mid as int,
    }
    &&& cc.mid_end_kc@ == Breakpoint {
        threshold: days[0] + days[1] + days[2],
        kc: record.k_mid as int,
    }
    &&& cc.late_end_kc@ == Breakpoint {
        threshold: days[0] + days[1] + days[2] + days[3],
        kc: record.k_end as int,
    }
    &&& cc.planting_date == record.planting_date
    &&& cc.crop_height == record.height_m
    &&& valid_table(cc@)
}

/// Turns one crop record into a profile, or says what is wrong with it.
pub fn profile_from_record(record: &CropRecord) -> (result: Result<CropCoefficientsGs, ConfigError>)
    ensures
        match result {
            Ok(cc) => record_error(*record) is None && is_profile_of(cc, *record),
            Err(e) => record_error(*record) == Some(e),
        },
{
    if record.growth_stages_days.len() != 4 {
        return Err(ConfigError::StageCount);
    }
    let d0: i64 = record.growth_stages_days[0] as i64;
    let d1: i64 = record.growth_stages_days[1] as i64;
    let d2: i64 = record.growth_stages_days[2] as i64;
    let d3: i64 = record.growth_stages_days[3] as i64;
    if d0 < 0 || d1 < 0 || d2 < 0 || d3 < 0 {
        return Err(ConfigError::NegativeStageLength);
    }
    if d0 + d1 + d2 + d3 > u16::MAX as i64 {
        return Err(ConfigError::SeasonTooLong);
    }
    if let Some(fault) = CropCoefficientsGs::find_fault(
        record.k_ini,
        record.k_mid,
        record.k_mid,
        record.k_end,
    ) {
        return Err(fault);
    }
    Ok(
        CropCoefficientsGs::new(
            record.name.clone(),
            (d0 as u16, record.k_ini),
            ((d0 + d1) as u16, record.k_mid),
            ((d0 + d1 + d2) as u16, record.k_mid),
            ((d0 + d1 + d2 + d3) as u16, record.k_end),
            record.planting_date,
            record.height_m,
        ),
    )
}

/// Turns the crops of a coefficient table into profiles, in the order of the
/// records. The first record with a fault stops the conversion, and its
/// fault is the result.
pub fn load_crop_coefficients(records: &Vec<CropRecord>) -> (result: Result<
    Vec<CropCoefficientsGs>,
    ConfigError,
>)
    ensures
        match result {
            Ok(profiles) => {
                &&& profiles.len() == records.len()
                &&& forall|i: int|
                    0 <= i < records.len() ==> record_error(#[trigger] records[i]) is None
                &&& forall|i: int|
                    0 <= i < records.len() ==> is_profile_of(#[trigger] profiles[i], records[i])
            },
            Err(e) => exists|i: int|
                {
                    &&& 0 <= i < records.len()
                    &&& record_error(#[trigger] records[i]) == Some(e)
                    &&& forall|j: int| 0 <= j < i ==> record_error(#[trigger] records[j]) is None
                },
        },
{
    let mut profiles: Vec<CropCoefficientsGs> = Vec::new();
    let mut i: usize = 0;
    while i < records.len()
        invariant
            i <= records.len(),
            profiles.len() == i,
            forall|j: int| 0 <= j < i ==> record_error(#[trigger] records[j]) is None,
            forall|j: int| 0 <= j < i ==> is_profile_of(#[trigger] profiles[j], records[j]),
        decreases records.len() - i,
    {
        match profile_from_record(&records[i]) {
            Ok(cc) => {
                profiles.push(cc);
            },
            Err(e) => {
                return Err(e);
            },
        }
        i = i + 1;
    }
    Ok(profiles)
}

} // verus!
