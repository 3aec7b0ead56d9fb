use crop_kc::calculate_gdd;

/// Degrees as the library takes them: thousandths, as an integer.
fn milli(degrees: f64) -> i32 {
    (degrees * 1000.0).round() as i32
}

/// Thousandths back in degrees.
fn degrees(milli: i32) -> f64 {
    milli as f64 / 1000.0
}

#[test]
fn test_calculate_gdd_avg_temp_equals_base_temp() {
    let max_temp = 15.0;
    let min_temp = 5.0;
    let base_temp = 10.0;
    let result = calculate_gdd(milli(max_temp), milli(min_temp), milli(base_temp));
    assert_eq!(degrees(result), 0.0);
}

#[test]
fn test_calculate_gdd_avg_temp_less_than_base_temp() {
    let max_temp = 12.0;
    let min_temp = 6.0;
    let base_temp = 10.0;
    let result = calculate_gdd(milli(max_temp), milli(min_temp), milli(base_temp));
    assert_eq!(degrees(result), 0.0);
}

#[test]
fn test_calculate_gdd_avg_temp_above_base_temp() {
    let max_temp = 25.0;
    let min_temp = 15.0;
    let base_temp = 10.0;
    let result = calculate_gdd(milli(max_temp), milli(min_temp), milli(base_temp));
    assert_eq!(degrees(result), 10.0);
}

#[test]
fn test_calculate_gdd_with_negative_temperatures() {
    let max_temp = -5.0;
    let min_temp = -15.0;
    let base_temp = 0.0;
    let result = calculate_gdd(milli(max_temp), milli(min_temp), milli(base_temp));
    assert_eq!(degrees(result), 0.0);
}

#[test]
fn test_calculate_gdd_with_very_large_temperatures() {
    let max_temp = 1_000_000.0;
    let min_temp = 999_999.0;
    let base_temp = 10.0;
    let result = calculate_gdd(milli(max_temp), milli(min_temp), milli(base_temp));
    assert_eq!(degrees(result), 20.0);
}

#[test]
fn test_calculate_gdd_adjust_max_temp() {
    let max_temp = 10.0;
    let min_temp = 15.0;
    let base_temp = 5.0;
    let result = calculate_gdd(milli(max_temp), milli(min_temp), milli(base_temp));
    assert_eq!(degrees(result), 10.0);
}

#[test]
fn gdd_is_exact_in_thousandths() {
    assert_eq!(calculate_gdd(25_000, 15_000, 10_000), 10_000);
    assert_eq!(calculate_gdd(21_300, 9_100, 4_400), 10_800);
    assert_eq!(calculate_gdd(12_000, 6_000, 10_000), 0);
}

#[test]
fn gdd_rounds_a_half_thousandth_up() {
    // (15.001 + 15.000) / 2 - 5 = 10.0005
    assert_eq!(calculate_gdd(15_001, 15_000, 5_000), 10_001);
    // (10.001 + 10.000) / 2 - 10 = 0.0005
    assert_eq!(calculate_gdd(10_001, 10_000, 10_000), 1);
}

#[test]
fn gdd_clamps_each_extreme() {
    // maximum below zero counts as zero, minimum below -5 as -5
    assert_eq!(calculate_gdd(-1_000, -9_000, -20_000), 0);
    assert_eq!(calculate_gdd(-1_000, -3_000, -20_000), 0);
    // both above 30 count as 30
    assert_eq!(calculate_gdd(45_000, 31_000, 0), 30_000);
    // minimum of -5 and maximum of 30: average 12.5
    assert_eq!(calculate_gdd(40_000, -40_000, 2_500), 10_000);
}

#[test]
fn gdd_takes_a_negative_base_as_zero() {
    assert_eq!(calculate_gdd(20_000, 10_000, -5_000), 15_000);
    assert_eq!(calculate_gdd(20_000, 10_000, 0), 15_000);
}

#[test]
fn gdd_is_never_negative() {
    let samples = [i32::MIN, -40_000, -5_001, -5_000, -1, 0, 1, 14_999, 30_000, 30_001, i32::MAX];
    for &max_temp in samples.iter() {
        for &min_temp in samples.iter() {
            for &base_temp in samples.iter() {
                let gdd = calculate_gdd(max_temp, min_temp, base_temp);
                assert!(gdd >= 0);
                assert!(gdd <= 30_000);
            }
        }
    }
}

#[test]
fn gdd_is_zero_when_average_equals_base() {
    assert_eq!(calculate_gdd(20_000, 10_000, 15_000), 0);
    assert_eq!(calculate_gdd(20_000, 10_000, 14_999), 1);
}
