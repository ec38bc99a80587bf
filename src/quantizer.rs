//! Tilt quantizer: maps a lateral reading to one of five buckets per axis.
use vstd::prelude::*;

use crate::mode::PrecisionMode;

verus! {

/// Divisor of the bucket thresholds: 1 in `Coarse`, 10 in `Fine`.
pub open spec fn scale(mode: PrecisionMode) -> int {
    match mode {
        PrecisionMode::Coarse => 1,
        PrecisionMode::Fine => 10,
    }
}

/// Magnitude at which a reading enters an extreme bucket.
pub open spec fn far_threshold(mode: PrecisionMode) -> int {
    500int / scale(mode)
}

/// Magnitude at which a reading leaves the center bucket.
pub open spec fn near_threshold(mode: PrecisionMode) -> int {
    250int / scale(mode)
}

/// Bucket of a reading, counted from the negative end: extreme-negative 0,
/// near-negative 1, center 2, near-positive 3, extreme-positive 4.
/// Negative boundaries are inclusive, positive ones start their bucket.
pub open spec fn bucket_of(v: int, mode: PrecisionMode) -> int {
    if v <= -far_threshold(mode) {
        0
    } else if v <= -near_threshold(mode) {
        1
    } else if v < near_threshold(mode) {
        2
    } else if v < far_threshold(mode) {
        3
    } else {
        4
    }
}

/// Row of the lit cell: the `y` bucket, not inverted.
pub open spec fn row_of(y: int, mode: PrecisionMode) -> int {
    bucket_of(y, mode)
}

/// Column of the lit cell: the `x` bucket, inverted so that a negative tilt
/// lights the right-hand columns.
pub open spec fn column_of(x: int, mode: PrecisionMode) -> int {
    4 - bucket_of(x, mode)
}

/// The threshold divisor of `mode`.
pub fn scale_of(mode: PrecisionMode) -> (r: i32)
    ensures
        r == scale(mode),
{
    match mode {
        PrecisionMode::Coarse => 1,
        PrecisionMode::Fine => 10,
    }
}

/// Grid index of `value` on one axis; `inverted` counts from the positive end.
pub fn bucket(value: i32, mode: PrecisionMode, inverted: bool) -> (r: usize)
    ensures
        r < 5,
        r == if inverted { 4 - bucket_of(value as int, mode) } else { bucket_of(value as int, mode) },
{
    let scale = scale_of(mode);
    let far: i32 = 500 / scale;
    let near: i32 = 250 / scale;
    // The five ranges cover every integer, so no reading falls through.
    let b: usize = if value <= -far {
        0
    } else if value <= -near {
        1
    } else if value < near {
        2
    } else if value < far {
        3
    } else {
        4
    };
    if inverted {
        4 - b
    } else {
        b
    }
}

/// The `(row, column)` of the cell lit for the lateral readings `x` and `y`.
pub fn quantize(mode: PrecisionMode, x: i32, y: i32) -> (r: (usize, usize))
    ensures
        r.0 < 5,
        r.1 < 5,
        r.0 == row_of(y as int, mode),
        r.1 == column_of(x as int, mode),
{
    (bucket(y, mode, false), bucket(x, mode, true))
}

} // verus!
