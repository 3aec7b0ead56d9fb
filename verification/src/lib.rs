//! Crop coefficients (Kc) and growing degree days (GDD) for irrigation
//! scheduling, after the FAO-56 four-stage model.
//!
//! Every quantity is a fixed-point decimal with three fractional digits, held
//! in an integer: a temperature of 12.5 degrees is `12_500`, a Kc of 1.15 is
//! `1_150`, a wind speed of 2 m/s is `2_000`, a canopy height of 1.391 m is
//! `1_391`. Day counts are plain integers.
pub mod adjust;
pub mod dates;
pub mod fault;
pub mod gdd;
pub mod kc_gdd;
pub mod kc_gs;
pub mod laws;
pub mod rounding;
pub mod stage;

pub use adjust::adjust_kc;
pub use adjust::EnvironmentalFactors;
pub use fault::ConfigError;
pub use gdd::calculate_gdd;
pub use kc_gdd::crop_coefficient_gdd;
pub use kc_gdd::CropCoefficientsGdd;
pub use kc_gs::crop_coefficient_gs;
pub use kc_gs::load_crop_coefficients;
pub use kc_gs::CropCoefficientsGs;
pub use kc_gs::CropRecord;
pub use kc_gs::KcStage;
pub use stage::GrowthStage;
