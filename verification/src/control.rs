//! Validation of runtime control requests: retuning the centre frequency and
//! changing the tuner gain.

use vstd::prelude::*;

verus! {

/// Lowest centre frequency accepted for a retune, in Hz (R820T tuners reach ~24 MHz).
pub const MIN_RETUNE_HZ: u32 = 24_000_000;
/// Highest centre frequency accepted for a retune, in Hz (R820T tuners reach ~1.766 GHz).
pub const MAX_RETUNE_HZ: u32 = 1_800_000_000;
/// Highest plausible tuner gain, in tenths of a dB (R820T-class tuners top out near 49.6 dB).
pub const MAX_GAIN_TENTHS_DB: u32 = 500;

/// Why a control request is refused.
#[derive(Debug, Clone, Copy, PartialEq, Eq, Structural)]
pub enum ControlError {
    /// A retune named neither `hz` nor `mhz`.
    MissingFrequency,
    /// A retune target outside what the tuner covers.
    FrequencyOutOfRange,
    /// A gain above the plausible maximum.
    GainOutOfRange,
}

impl ControlError {
    /// The text sent back with the refusal.
    pub fn message(&self) -> (r: &'static str)
        ensures
            r@ == match *self {
                ControlError::MissingFrequency => "must provide hz or mhz"@,
                ControlError::FrequencyOutOfRange => "target frequency out of RTL-SDR range"@,
                ControlError::GainOutOfRange => "tenths_db out of plausible range (max 500)"@,
            },
    {
        match self {
            ControlError::MissingFrequency => "must provide hz or mhz",
            ControlError::FrequencyOutOfRange => "target frequency out of RTL-SDR range",
            ControlError::GainOutOfRange => "tenths_db out of plausible range (max 500)",
        }
    }
}

/// The retune a request asks for: `hz` when given, else `mhz` (already
/// converted to whole Hz), refused when neither is given or the target lies
/// outside `MIN_RETUNE_HZ..=MAX_RETUNE_HZ`.
pub open spec fn retune_target_spec(hz: Option<u32>, mhz_in_hz: Option<u32>) -> Result<
    u32,
    ControlError,
> {
    let target = match hz {
        Some(h) => Some(h),
        None => mhz_in_hz,
    };
    match target {
        None => Err(ControlError::MissingFrequency),
        Some(t) => if MIN_RETUNE_HZ <= t && t <= MAX_RETUNE_HZ {
            Ok(t)
        } else {
            Err(ControlError::FrequencyOutOfRange)
        },
    }
}

/// Resolves and checks the target of a retune request.
pub fn retune_target(hz: Option<u32>, mhz_in_hz: Option<u32>) -> (r: Result<u32, ControlError>)
    ensures
        r == retune_target_spec(hz, mhz_in_hz),
{
    let target = match hz {
        Some(h) => h,
        None => match mhz_in_hz {
            Some(m) => m,
            None => {
                return Err(ControlError::MissingFrequency);
            },
        },
    };
    if MIN_RETUNE_HZ <= target && target <= MAX_RETUNE_HZ {
        Ok(target)
    } else {
        Err(ControlError::FrequencyOutOfRange)
    }
}

/// Checks a requested tuner gain, in tenths of a dB.
pub fn check_gain(tenths_db: u32) -> (r: Result<u32, ControlError>)
    ensures
        tenths_db <= MAX_GAIN_TENTHS_DB ==> r == Ok::<u32, ControlError>(tenths_db),
        tenths_db > MAX_GAIN_TENTHS_DB ==> r == Err::<u32, ControlError>(
            ControlError::GainOutOfRange,
        ),
{
    if tenths_db > MAX_GAIN_TENTHS_DB {
        Err(ControlError::GainOutOfRange)
    } else {
        Ok(tenths_db)
    }
}

/// Whatever the request, an accepted retune target is the `hz` field when it
/// is given and the `mhz` field otherwise, and it lies within the tuner's
/// range; the request is refused as out of range exactly when that target
/// lies outside it, and as incomplete exactly when neither field is given.
pub proof fn law_retune_target_in_range(hz: Option<u32>, mhz_in_hz: Option<u32>, t: u32)
    ensures
        retune_target_spec(hz, mhz_in_hz) == Ok::<u32, ControlError>(t) ==> MIN_RETUNE_HZ <= t
            <= MAX_RETUNE_HZ && (hz == Some(t) || (hz is None && mhz_in_hz == Some(t))),
        retune_target_spec(hz, mhz_in_hz) == Err::<u32, ControlError>(
            ControlError::MissingFrequency,
        ) <==> (hz is None && mhz_in_hz is None),
        (hz == Some(t) || (hz is None && mhz_in_hz == Some(t))) ==> retune_target_spec(
            hz,
            mhz_in_hz,
        ) == if MIN_RETUNE_HZ <= t <= MAX_RETUNE_HZ {
            Ok::<u32, ControlError>(t)
        } else {
            Err::<u32, ControlError>(ControlError::FrequencyOutOfRange)
        },
{
}

} // verus!
