//! Properties that hold across all readings, modes and ticks.
use vstd::prelude::*;

use crate::gate::AccelSample;
use crate::level::LevelView;
use crate::mode::{next_mode, PrecisionMode};
use crate::quantizer::{bucket_of, column_of, far_threshold, near_threshold, row_of};

verus! {

/// Every integer reading, in either mode, maps to a row and a column inside
/// the 5x5 matrix.
pub proof fn lemma_cell_in_matrix(x: int, y: int, mode: PrecisionMode)
    ensures
        0 <= row_of(y, mode) < 5,
        0 <= column_of(x, mode) < 5,
{
}

/// A tick with a fresh sample leaves a state that depends only on the mode,
/// the buttons and the sample: the frame shown before plays no part.
pub proof fn lemma_fresh_sample_determines_state(
    v1: LevelView,
    v2: LevelView,
    a_pressed: bool,
    b_pressed: bool,
    s: AccelSample,
)
    requires
        v1.mode == v2.mode,
    ensures
        v1.next(a_pressed, b_pressed, Some(s)) == v2.next(a_pressed, b_pressed, Some(s)),
{
}

/// Pressing both buttons, or neither, never changes the mode.
pub proof fn lemma_mode_sticky(mode: PrecisionMode)
    ensures
        next_mode(mode, true, true) == mode,
        next_mode(mode, false, false) == mode,
{
}

/// The column mapping runs opposite to the row mapping: a reading that lands
/// in row `r` on the y axis lands in column `4 - r` on the x axis.
pub proof fn lemma_axis_inversion(v: int, mode: PrecisionMode)
    ensures
        column_of(v, mode) == 4 - row_of(v, mode),
{
}

/// The `Fine` thresholds are the `Coarse` ones divided by ten, so a reading
/// falls in the same `Fine` bucket as ten times that reading in `Coarse`.
pub proof fn lemma_scale_law(x: int)
    ensures
        far_threshold(PrecisionMode::Fine) == far_threshold(PrecisionMode::Coarse) / 10,
        near_threshold(PrecisionMode::Fine) == near_threshold(PrecisionMode::Coarse) / 10,
        bucket_of(x, PrecisionMode::Fine) == bucket_of(10 * x, PrecisionMode::Coarse),
{
}

} // verus!
