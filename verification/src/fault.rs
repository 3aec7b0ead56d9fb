//! The faults that a crop's configuration can have.
use vstd::prelude::*;

verus! {

/// Why a set of crop parameters cannot become a profile.
#[derive(Debug, Clone, Copy, PartialEq, Eq, Structural)]
pub enum ConfigError {
    /// There are not exactly four stage lengths.
    StageCount,
    /// A stage length is negative.
    NegativeStageLength,
    /// The four stages together are longer than a day count can hold.
    SeasonTooLong,
    /// A coefficient exceeds 2.
    KcAboveTwo,
}

impl ConfigError {
    /// The text of `description`.
    pub open spec fn text(self) -> Seq<char> {
        match self {
            ConfigError::StageCount => "A crop needs exactly four stage lengths."@,
            ConfigError::NegativeStageLength => "Length of period must be positive."@,
            ConfigError::SeasonTooLong => "The growing season is too long."@,
            ConfigError::KcAboveTwo => "Kc cannot exceed 2."@,
        }
    }

    /// Describes the error in words.
    pub fn description(&self) -> (text: String)
        ensures
            text@ == self.text(),
    {
        match self {
            ConfigError::StageCount => "A crop needs exactly four stage lengths.".to_owned(),
            ConfigError::NegativeStageLength => "Length of period must be positive.".to_owned(),
            ConfigError::SeasonTooLong => "The growing season is too long.".to_owned(),
            ConfigError::KcAboveTwo => "Kc cannot exceed 2.".to_owned(),
        }
    }
}

} // verus!
