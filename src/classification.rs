use vstd::prelude::*;

verus! {

/// The kind of tremor that recent movement shows.
#[derive(Clone, Copy, Debug, PartialEq, Eq, Structural)]
pub enum TremorType {
    Resting,
    Action,
    Mixed,
    HighFrequency,
    HighAmplitude,
}

/// Frequency (thousandths) above which movement counts as high-frequency tremor.
pub const HIGH_FREQUENCY_ABOVE: i64 = 8000;

/// Amplitude (thousandths) above which movement counts as high-amplitude tremor.
pub const HIGH_AMPLITUDE_ABOVE: i64 = 5000;

/// Amplitude (thousandths) below which the hand counts as resting.
pub const RESTING_BELOW: i64 = 100;

/// Frequency (thousandths) above which movement counts as action tremor.
pub const ACTION_ABOVE: i64 = 300;

/// The classification of an amplitude and a frequency, both in thousandths:
/// the first condition that holds wins.
pub open spec fn classification_of(amplitude: int, frequency: int) -> TremorType {
    if frequency > HIGH_FREQUENCY_ABOVE {
        TremorType::HighFrequency
    } else if amplitude > HIGH_AMPLITUDE_ABOVE {
        TremorType::HighAmplitude
    } else if amplitude < RESTING_BELOW {
        TremorType::Resting
    } else if frequency > ACTION_ABOVE {
        TremorType::Action
    } else {
        TremorType::Mixed
    }
}

/// The smoothing factor, in thousandths, that each classification selects.
pub open spec fn smoothing_factor_of(t: TremorType) -> int {
    match t {
        TremorType::Resting => 900,
        TremorType::Action => 500,
        TremorType::HighFrequency => 800,
        TremorType::HighAmplitude => 600,
        TremorType::Mixed => 700,
    }
}

/// Classifies rolling movement statistics (amplitude and frequency, both in
/// thousandths) by the fixed precedence: high frequency, high amplitude,
/// resting, action, and mixed otherwise.
pub fn classify(amplitude: i64, frequency: i64) -> (r: TremorType)
    ensures
        r == classification_of(amplitude as int, frequency as int),
{
    if frequency > HIGH_FREQUENCY_ABOVE {
        TremorType::HighFrequency
    } else if amplitude > HIGH_AMPLITUDE_ABOVE {
        TremorType::HighAmplitude
    } else if amplitude < RESTING_BELOW {
        TremorType::Resting
    } else if frequency > ACTION_ABOVE {
        TremorType::Action
    } else {
        TremorType::Mixed
    }
}

/// The smoothing factor, in thousandths, that a classification selects.
pub fn smoothing_factor_for(t: TremorType) -> (r: i64)
    ensures
        r == smoothing_factor_of(t),
        0 < r < 1000,
{
    match t {
        TremorType::Resting => 900,
        TremorType::Action => 500,
        TremorType::HighFrequency => 800,
        TremorType::HighAmplitude => 600,
        TremorType::Mixed => 700,
    }
}

} // verus!
