//! Validation of the spectrogram configuration.

use vstd::prelude::*;

verus! {

/// Why a spectrogram computation refuses to start. Detected before any frame
/// is processed; no partial result is ever produced.
#[derive(Clone, Copy, Debug, PartialEq, Eq, Structural)]
pub enum ConfigError {
    /// The window size is 0 or 1: too short for a taper (the Hann formula
    /// divides by `window_size - 1`) or for a half-spectrum.
    WindowTooSmall,
    /// `window_size + hop` is zero or negative: the frame cursor would never
    /// advance and the extractor would loop forever.
    StepNotPositive,
}

/// The distance the frame cursor advances between successive frames.
pub open spec fn spec_step(window_size: int, hop: int) -> int {
    window_size + hop
}

/// Checks a window size / hop configuration and computes the cursor step.
///
/// A window size of 0 or 1 is rejected, then a non-positive step; otherwise
/// the step `window_size + hop` is returned.
pub fn validate(window_size: usize, hop: isize) -> (r: Result<usize, ConfigError>)
    requires
        window_size as int + hop as int <= usize::MAX as int,
    ensures
        window_size <= 1 ==> r == Err::<usize, ConfigError>(ConfigError::WindowTooSmall),
        window_size > 1 && spec_step(window_size as int, hop as int) <= 0 ==> r == Err::<
            usize,
            ConfigError,
        >(ConfigError::StepNotPositive),
        window_size > 1 && spec_step(window_size as int, hop as int) > 0 ==> r == Ok::<
            usize,
            ConfigError,
        >((window_size as int + hop as int) as usize),
{
    if window_size <= 1 {
        return Err(ConfigError::WindowTooSmall);
    }
    let w: i128 = window_size as i128;
    let h: i128 = hop as i128;
    let step: i128 = w + h;
    if step <= 0 {
        Err(ConfigError::StepNotPositive)
    } else {
        Ok(step as usize)
    }
}

} // verus!
