//! Conversion of raw temperature samples. The on-chip sensor reports degrees
//! Celsius in units of a quarter degree; the exact value is kept by scaling
//! to thousandths of a degree, and a display layer may render it however it
//! likes.

use vstd::prelude::*;

verus! {

/// The scale of one raw sensor unit, in thousandths of a degree Celsius.
pub const MILLIDEGREES_PER_UNIT: i64 = 250;

/// Convert a raw sample in quarter degrees Celsius to thousandths of a
/// degree Celsius, exactly.
pub fn temp_millicelsius(raw_quarter_degrees: i32) -> (r: i64)
    ensures
        r == raw_quarter_degrees * MILLIDEGREES_PER_UNIT,
{
    (raw_quarter_degrees as i64) * MILLIDEGREES_PER_UNIT
}

} // verus!
