//! Width computation and validation for the progress bar.
//!
//! A progress bar is configured with a value and an inclusive range. A
//! malformed configuration is a programming mistake of the caller and is
//! rejected loudly rather than silently clamped.

use vstd::prelude::*;

verus! {

/// Why a progress-bar configuration is rejected.
#[derive(Clone, Copy, PartialEq, Eq, Structural, Debug)]
pub enum ProgressError {
    /// The value lies outside the configured range.
    ValueOutOfRange,
    /// The range is empty: `min` is not below `max`.
    EmptyRange,
}

/// The width of the bar in whole percent: the value's position within
/// the range, scaled to 100 and rounded down.
pub open spec fn progress_width_spec(value: int, min: int, max: int) -> int {
    100 * (value - min) / (max - min)
}

/// The width in percent of a validated progress bar.
pub fn progress_width(value: i32, min: i32, max: i32) -> (r: i32)
    requires
        min < max,
        min <= value <= max,
    ensures
        r == progress_width_spec(value as int, min as int, max as int),
        0 <= r <= 100,
{
    let num: u64 = 100 * (((value as i64) - (min as i64)) as u64);
    let den: u64 = ((max as i64) - (min as i64)) as u64;
    let w = num / den;
    proof {
        assert(num == 100 * (value - min));
        assert(num <= 100 * (den as int));
        assert(0 <= (num as int) / (den as int) <= 100) by (nonlinear_arith)
            requires
                den > 0,
                num >= 0,
                num <= 100 * (den as int),
        ;
    }
    w as i32
}

/// Validate a progress-bar configuration and compute its width.
///
/// A value outside `min..=max` is reported first; then a range with
/// `min >= max`; a well-formed configuration yields the width in percent.
pub fn progress_width_checked(value: i32, min: i32, max: i32) -> (r: Result<i32, ProgressError>)
    ensures
        (value < min || value > max) ==> r == Err::<i32, ProgressError>(
            ProgressError::ValueOutOfRange,
        ),
        min <= value <= max && min >= max ==> r == Err::<i32, ProgressError>(
            ProgressError::EmptyRange,
        ),
        min <= value <= max && min < max ==> (r matches Ok(w) && w == progress_width_spec(
            value as int,
            min as int,
            max as int,
        )),
{
    if value < min || value > max {
        Err(ProgressError::ValueOutOfRange)
    } else if min >= max {
        Err(ProgressError::EmptyRange)
    } else {
        Ok(progress_width(value, min, max))
    }
}

} // verus!
