use chrono::NaiveDate;
use crop_kc::adjust::EnvironmentalFactors;
use crop_kc::crop_coefficient_gs;
use crop_kc::dates::days_since;
use crop_kc::kc_gs::profile_from_record;
use crop_kc::ConfigError;
use crop_kc::CropRecord;
use crop_kc::load_crop_coefficients;
use crop_kc::CropCoefficientsGs;
use crop_kc::GrowthStage;
use crop_kc::KcStage;

/// A coefficient as the library takes it: thousandths, as an integer.
fn milli(kc: f64) -> u16 {
    (kc * 1000.0).round() as u16
}

fn date(year: i32, month: u32, day: u32) -> NaiveDate {
    NaiveDate::from_ymd_opt(year, month, day).expect("a valid date")
}

fn record(name: &str, k: [f64; 3], height_m: f64, stages: [i32; 4], planted: (u32, u32)) -> CropRecord {
    CropRecord {
        name: name.to_string(),
        k_ini: milli(k[0]),
        k_mid: milli(k[1]),
        k_end: milli(k[2]),
        height_m: milli(height_m),
        growth_stages_days: stages.to_vec(),
        planting_date: date(2024, planted.0, planted.1),
    }
}

/// A table of twelve crops with FAO-56 style parameters.
fn crop_table() -> Vec<CropRecord> {
    vec![
        record("wheat", [0.30, 1.15, 0.25], 1.0, [20, 25, 60, 30], (3, 15)),
        record("barley", [0.30, 1.15, 0.25], 1.0, [15, 25, 50, 30], (3, 15)),
        record("corn", [0.30, 1.20, 0.60], 2.0, [20, 30, 50, 20], (5, 1)),
        record("soybean", [0.40, 1.15, 0.50], 0.75, [20, 30, 60, 25], (5, 15)),
        record("cotton", [0.35, 1.20, 0.60], 1.35, [30, 50, 60, 55], (4, 10)),
        record("potato", [0.50, 1.15, 0.75], 0.6, [25, 30, 45, 30], (4, 1)),
        record("tomato", [0.60, 1.15, 0.80], 0.6, [30, 40, 45, 30], (4, 20)),
        record("rice", [1.05, 1.20, 0.90], 1.0, [30, 30, 60, 30], (5, 20)),
        record("sunflower", [0.35, 1.10, 0.35], 2.0, [25, 35, 45, 25], (4, 25)),
        record("sugarbeet", [0.35, 1.20, 0.70], 0.5, [30, 45, 90, 15], (3, 20)),
        record("alfalfa", [0.40, 0.95, 0.90], 0.7, [10, 30, 25, 10], (3, 1)),
        record("sorghum", [0.30, 1.05, 0.55], 1.5, [20, 35, 40, 30], (5, 10)),
    ]
}

fn corn() -> CropCoefficientsGs {
    CropCoefficientsGs::new(
        "corn".to_string(),
        (20, 300),
        (50, 1_200),
        (100, 1_200),
        (120, 600),
        date(2024, 5, 1),
        2_000,
    )
}

#[test]
fn test_load_crop_coefficients() {
    let result = load_crop_coefficients(&crop_table());
    if result.is_err() {
        panic!("Error loading crop coefficients: {}", result.unwrap_err().description())
    }

    let crop_coefficients = result.unwrap();
    assert_eq!(crop_coefficients.len(), 12);

    // find a corn crop and look at its coefficients
    let corn_coefficient =
        crop_coefficients.iter().find(|cc| cc.crop_name == "corn").expect("Corn not found");
    assert_eq!(corn_coefficient.initial_end_kc.days, 20);
    assert_eq!(corn_coefficient.initial_end_kc.kc, milli(0.30));
    assert_eq!(corn_coefficient.development_end_kc.days, 50);
    assert_eq!(corn_coefficient.development_end_kc.kc, milli(1.20));
    assert_eq!(corn_coefficient.mid_end_kc.days, 100);
    assert_eq!(corn_coefficient.mid_end_kc.kc, milli(1.20));
    assert_eq!(corn_coefficient.late_end_kc.days, 120);
    assert_eq!(corn_coefficient.late_end_kc.kc, milli(0.60));
}

#[test]
fn loading_keeps_order_names_dates_and_heights() {
    let table = crop_table();
    let profiles = load_crop_coefficients(&table).expect("a table without fault");
    assert_eq!(profiles.len(), table.len());
    for (profile, record) in profiles.iter().zip(table.iter()) {
        assert_eq!(profile.crop_name, record.name);
        assert_eq!(profile.planting_date, record.planting_date);
        assert_eq!(profile.crop_height, record.height_m);
        let days = &record.growth_stages_days;
        assert_eq!(profile.initial_end_kc.days as i32, days[0]);
        assert_eq!(profile.development_end_kc.days as i32, days[0] + days[1]);
        assert_eq!(profile.mid_end_kc.days as i32, days[0] + days[1] + days[2]);
        assert_eq!(profile.late_end_kc.days as i32, days[0] + days[1] + days[2] + days[3]);
        assert_eq!(profile.initial_end_kc.kc, record.k_ini);
        assert_eq!(profile.development_end_kc.kc, record.k_mid);
        assert_eq!(profile.mid_end_kc.kc, record.k_mid);
        assert_eq!(profile.late_end_kc.kc, record.k_end);
    }
    assert_eq!(profiles[2].crop_height, 2_000);
    assert_eq!(profiles[2].planting_date, date(2024, 5, 1));
}

#[test]
fn loading_an_empty_table_gives_no_profiles() {
    let profiles = load_crop_coefficients(&Vec::new()).expect("nothing to reject");
    assert!(profiles.is_empty());
}

#[test]
fn a_record_needs_exactly_four_stage_lengths() {
    let mut short = record("corn", [0.30, 1.20, 0.60], 2.0, [20, 30, 50, 20], (5, 1));
    short.growth_stages_days = vec![20, 30, 50];
    assert_eq!(profile_from_record(&short).unwrap_err(), ConfigError::StageCount);
    short.growth_stages_days = vec![];
    assert_eq!(profile_from_record(&short).unwrap_err(), ConfigError::StageCount);
    short.growth_stages_days = vec![20, 30, 50, 20, 10];
    assert_eq!(profile_from_record(&short).unwrap_err(), ConfigError::StageCount);
    // the count is looked at first
    short.growth_stages_days = vec![-1];
    short.k_mid = 5_000;
    assert_eq!(profile_from_record(&short).unwrap_err(), ConfigError::StageCount);
}

#[test]
fn a_negative_stage_length_is_rejected() {
    for index in 0..4 {
        let mut stages = [20, 30, 50, 20];
        stages[index] = -1;
        let bad = record("corn", [0.30, 1.20, 0.60], 2.0, stages, (5, 1));
        assert_eq!(profile_from_record(&bad).unwrap_err(), ConfigError::NegativeStageLength);
    }
    let bad = record("corn", [0.30, 3.0, 0.60], 2.0, [i32::MAX, i32::MIN, 0, 0], (5, 1));
    assert_eq!(profile_from_record(&bad).unwrap_err(), ConfigError::NegativeStageLength);
    let zero = record("corn", [0.30, 1.20, 0.60], 2.0, [0, 0, 0, 0], (5, 1));
    let profile = profile_from_record(&zero).expect("stages of no length are allowed");
    assert_eq!(profile.late_end_kc.days, 0);
}

#[test]
fn a_season_longer_than_a_day_count_is_rejected() {
    let longest = record("corn", [0.30, 1.20, 0.60], 2.0, [65_535, 0, 0, 0], (5, 1));
    let profile = profile_from_record(&longest).expect("the longest season that fits");
    assert_eq!(profile.initial_end_kc.days, 65_535);
    assert_eq!(profile.late_end_kc.days, 65_535);
    let fits = record("corn", [0.30, 1.20, 0.60], 2.0, [20_000, 20_000, 20_000, 5_535], (5, 1));
    assert_eq!(profile_from_record(&fits).expect("fits").late_end_kc.days, 65_535);
    let too_long = record("corn", [0.30, 1.20, 0.60], 2.0, [20_000, 20_000, 20_000, 5_536], (5, 1));
    assert_eq!(profile_from_record(&too_long).unwrap_err(), ConfigError::SeasonTooLong);
    let huge = record("corn", [0.30, 9.0, 0.60], 2.0, [i32::MAX, i32::MAX, i32::MAX, i32::MAX], (5, 1));
    assert_eq!(profile_from_record(&huge).unwrap_err(), ConfigError::SeasonTooLong);
}

#[test]
fn a_coefficient_above_two_is_rejected() {
    let limit = record("corn", [2.0, 2.0, 2.0], 2.0, [20, 30, 50, 20], (5, 1));
    assert!(profile_from_record(&limit).is_ok());
    for index in 0..3 {
        let mut k = [0.30, 1.20, 0.60];
        k[index] = 2.001;
        let bad = record("corn", k, 2.0, [20, 30, 50, 20], (5, 1));
        assert_eq!(profile_from_record(&bad).unwrap_err(), ConfigError::KcAboveTwo);
    }
}

#[test]
fn the_first_faulty_record_decides_the_error() {
    let mut table = crop_table();
    table[7].k_end = 2_500;
    table[9].growth_stages_days = vec![1, 2, 3];
    assert_eq!(load_crop_coefficients(&table).unwrap_err(), ConfigError::KcAboveTwo);
    table[4].growth_stages_days[2] = -60;
    assert_eq!(load_crop_coefficients(&table).unwrap_err(), ConfigError::NegativeStageLength);
    table[0].growth_stages_days.push(1);
    assert_eq!(load_crop_coefficients(&table).unwrap_err(), ConfigError::StageCount);
}

#[test]
fn errors_describe_themselves() {
    assert_eq!(ConfigError::KcAboveTwo.description(), "Kc cannot exceed 2.");
    assert_eq!(ConfigError::NegativeStageLength.description(), "Length of period must be positive.");
    assert_eq!(ConfigError::StageCount.description(), "A crop needs exactly four stage lengths.");
    assert_eq!(ConfigError::SeasonTooLong.description(), "The growing season is too long.");
}

#[test]
fn kc_stage_pairs_days_and_coefficient() {
    let stage = KcStage::new(50, 1_200);
    assert_eq!(stage.days, 50);
    assert_eq!(stage.kc, 1_200);
    assert_eq!(stage, KcStage { days: 50, kc: 1_200 });
}

#[test]
fn new_stores_what_it_is_given() {
    let cc = corn();
    assert_eq!(cc.crop_name, "corn");
    assert_eq!(cc.initial_end_kc, KcStage { days: 20, kc: 300 });
    assert_eq!(cc.development_end_kc, KcStage { days: 50, kc: 1_200 });
    assert_eq!(cc.mid_end_kc, KcStage { days: 100, kc: 1_200 });
    assert_eq!(cc.late_end_kc, KcStage { days: 120, kc: 600 });
    assert_eq!(cc.planting_date, date(2024, 5, 1));
    assert_eq!(cc.crop_height, 2_000);
}

#[test]
fn find_fault_tells_when_a_coefficient_is_too_high() {
    assert_eq!(CropCoefficientsGs::find_fault(300, 1_200, 1_200, 600), None);
    assert_eq!(CropCoefficientsGs::find_fault(2_000, 2_000, 2_000, 2_000), None);
    assert_eq!(CropCoefficientsGs::find_fault(0, 0, 0, 0), None);
    let too_high = Some(ConfigError::KcAboveTwo);
    assert_eq!(CropCoefficientsGs::find_fault(2_001, 1_200, 1_200, 600), too_high);
    assert_eq!(CropCoefficientsGs::find_fault(300, 2_001, 1_200, 600), too_high);
    assert_eq!(CropCoefficientsGs::find_fault(300, 1_200, 2_001, 600), too_high);
    assert_eq!(CropCoefficientsGs::find_fault(300, 1_200, 1_200, 2_001), too_high);
}

#[test]
fn growth_stage_follows_the_cumulative_days() {
    let cc = corn();
    assert_eq!(cc.determine_growth_stage(i64::MIN), GrowthStage::Initial);
    assert_eq!(cc.determine_growth_stage(-30), GrowthStage::Initial);
    assert_eq!(cc.determine_growth_stage(0), GrowthStage::Initial);
    assert_eq!(cc.determine_growth_stage(20), GrowthStage::Initial);
    assert_eq!(cc.determine_growth_stage(21), GrowthStage::Development);
    assert_eq!(cc.determine_growth_stage(50), GrowthStage::Development);
    assert_eq!(cc.determine_growth_stage(51), GrowthStage::Mid);
    assert_eq!(cc.determine_growth_stage(100), GrowthStage::Mid);
    assert_eq!(cc.determine_growth_stage(101), GrowthStage::Late);
    assert_eq!(cc.determine_growth_stage(120), GrowthStage::Late);
    assert_eq!(cc.determine_growth_stage(121), GrowthStage::Late);
    assert_eq!(cc.determine_growth_stage(i64::MAX), GrowthStage::Late);
}

#[test]
fn days_are_counted_from_planting() {
    assert_eq!(days_since(date(2024, 6, 20), date(2024, 5, 1)), 50);
    assert_eq!(days_since(date(2024, 5, 1), date(2024, 5, 1)), 0);
    assert_eq!(days_since(date(2024, 4, 1), date(2024, 5, 1)), -30);
    assert_eq!(days_since(date(2025, 5, 1), date(2024, 5, 1)), 365);
    assert_eq!(days_since(date(2024, 5, 1), date(1614, 5, 1)), 149_750);
    assert_eq!(days_since(NaiveDate::MAX, NaiveDate::MIN), 191_491_528);
    assert_eq!(days_since(NaiveDate::MIN, NaiveDate::MAX), -191_491_528);
}

#[test]
fn coefficient_after_days_follows_the_curve() {
    let cc = corn();
    let calm = EnvironmentalFactors { wind_speed: 2_000, min_relative_humidity: 45_000, canopy_height: 2_000 };
    let windy = EnvironmentalFactors { wind_speed: 4_000, min_relative_humidity: 30_000, canopy_height: 2_000 };
    let expected: [(i32, i64, i64); 14] = [
        (-10, 300, 300),
        (0, 300, 300),
        (20, 300, 300),
        (21, 330, 330),
        (35, 750, 750),
        (50, 1_200, 1_200),
        (51, 1_200, 1_280),
        (75, 1_200, 1_280),
        (100, 1_200, 1_280),
        (101, 630, 710),
        (110, 900, 980),
        (120, 1_200, 1_280),
        (150, 2_100, 2_180),
        (365, 8_550, 8_630),
    ];
    for &(days, in_calm, in_wind) in expected.iter() {
        assert_eq!(cc.coefficient_after_days(days, calm), in_calm, "day {}", days);
        assert_eq!(cc.coefficient_after_days(days, windy), in_wind, "day {}", days);
    }
}

#[test]
fn coefficient_from_date_counts_from_the_profiles_planting_date() {
    let cc = corn();
    // day 50 ends the development stage
    assert_eq!(cc.coefficient_from_date(date(2024, 6, 20), None, None, None), 1_200);
    // day 35
    assert_eq!(cc.coefficient_from_date(date(2024, 6, 5), None, None, None), 750);
    // day 75, mid stage, corrected over the profile's own canopy of 2 m
    assert_eq!(cc.coefficient_from_date(date(2024, 7, 15), Some(4_000), Some(30_000), None), 1_280);
    // the same with the height given
    assert_eq!(cc.coefficient_from_date(date(2024, 7, 15), Some(4_000), Some(30_000), Some(1_391)), 1_270);
    // humidity as a fraction
    assert_eq!(cc.coefficient_from_date(date(2024, 7, 15), Some(4_000), Some(300), Some(500)), 1_250);
    // day 110, late stage
    assert_eq!(cc.coefficient_from_date(date(2024, 8, 19), Some(4_000), Some(30_000), None), 980);
    assert_eq!(cc.coefficient_from_date(date(2024, 8, 19), None, None, None), 900);
    // a year after planting
    assert_eq!(cc.coefficient_from_date(date(2025, 5, 1), None, None, None), 8_550);
}

#[test]
fn a_date_before_planting_gives_the_initial_coefficient() {
    let cc = corn();
    assert_eq!(cc.coefficient_from_date(date(2024, 4, 1), None, None, None), 300);
    assert_eq!(cc.coefficient_from_date(date(2024, 4, 30), Some(9_000), Some(5_000), Some(9_000)), 300);
    assert_eq!(cc.coefficient_from_date(date(1900, 1, 1), None, None, None), 300);
    assert_eq!(cc.coefficient_from_date(NaiveDate::MIN, None, None, None), 300);
    let (name, kc) = crop_coefficient_gs(date(2024, 5, 1), date(2024, 4, 1), corn(), None, None, None);
    assert_eq!(name, "corn");
    assert_eq!(kc, 300);
    let (_, kc) =
        crop_coefficient_gs(date(2024, 5, 1), date(2023, 5, 1), corn(), Some(9_000), Some(5_000), Some(9_000));
    assert_eq!(kc, 300);
}

#[test]
fn crop_coefficient_gs_counts_from_the_given_planting_date() {
    // the profile was planted on 1 May, but the count starts where the caller says
    let (name, kc) = crop_coefficient_gs(date(2024, 6, 1), date(2024, 7, 6), corn(), None, None, None);
    assert_eq!(name, "corn");
    assert_eq!(kc, 750);
    let (_, kc) = crop_coefficient_gs(date(2024, 5, 1), date(2024, 7, 6), corn(), None, None, None);
    assert_eq!(kc, 1_200);
    // absent height is 1.391 m, not the profile's 2 m
    let (_, kc) =
        crop_coefficient_gs(date(2024, 5, 1), date(2024, 7, 15), corn(), Some(4_000), Some(30_000), None);
    assert_eq!(kc, 1_270);
    let (_, kc) =
        crop_coefficient_gs(date(2024, 5, 1), date(2024, 7, 15), corn(), Some(4_000), Some(30_000), Some(2_000));
    assert_eq!(kc, 1_280);
    let (_, kc) = crop_coefficient_gs(date(2024, 5, 1), date(2024, 7, 15), corn(), Some(4_000), Some(300), Some(500));
    assert_eq!(kc, 1_250);
    let (_, kc) = crop_coefficient_gs(date(2024, 5, 1), date(2024, 8, 9), corn(), Some(4_000), Some(30_000), None);
    assert_eq!(kc, 1_270);
    let (_, kc) = crop_coefficient_gs(date(2024, 5, 1), date(2024, 8, 10), corn(), Some(4_000), Some(30_000), None);
    assert_eq!(kc, 700);
}

#[test]
fn a_day_count_profile_with_a_stage_of_no_length() {
    let cc = CropCoefficientsGs::new(
        "radish".to_string(),
        (10, 500),
        (10, 900),
        (30, 900),
        (30, 800),
        date(2024, 5, 1),
        300,
    );
    assert_eq!(cc.determine_growth_stage(10), GrowthStage::Initial);
    assert_eq!(cc.determine_growth_stage(11), GrowthStage::Mid);
    assert_eq!(cc.determine_growth_stage(31), GrowthStage::Late);
    assert_eq!(cc.coefficient_from_date(date(2024, 5, 11), None, None, None), 500);
    assert_eq!(cc.coefficient_from_date(date(2024, 5, 12), None, None, None), 900);
    assert_eq!(cc.coefficient_from_date(date(2024, 5, 31), None, None, None), 900);
    assert_eq!(cc.coefficient_from_date(date(2024, 6, 1), None, None, None), 800);
    assert_eq!(cc.coefficient_from_date(date(2024, 12, 1), None, None, None), 800);
}
