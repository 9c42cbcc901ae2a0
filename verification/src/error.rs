//! Validation failures of the public entry points.

use vstd::prelude::*;

verus! {

/// Why a requested date was rejected.
///
/// Every failure is deterministic: the same input is rejected the same way
/// on every call, so the only recovery is a corrected input.
#[derive(Clone, Copy, Debug, PartialEq, Eq, Structural)]
pub enum DateError {
    /// The month is outside 1 through 12.
    InvalidMonth,
    /// The day is outside the valid days of its month.
    InvalidDay,
    /// The year is outside the supported window of its calendar; the
    /// fields carry that window's bounds.
    YearOutOfSupportedRange { min: usize, max: usize },
    /// A day number fell outside the Umm al-Qura table: date arithmetic
    /// left the supported range.  The conversion entry points themselves
    /// never produce it; their year check runs first.
    DateOutOfTableBounds,
}

} // verus!
