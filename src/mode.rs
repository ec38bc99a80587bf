//! Precision mode and the two-button mode selector.
use vstd::prelude::*;

verus! {

/// Precision of the level: `Coarse` buckets are 250 raw units wide, `Fine`
/// buckets a tenth of that.
#[derive(Clone, Copy, Debug, PartialEq, Eq, Structural)]
pub enum PrecisionMode {
    Coarse,
    Fine,
}

/// The mode after one tick: a press of button A alone selects `Coarse`, a
/// press of button B alone selects `Fine`, anything else keeps `current`.
pub open spec fn next_mode(current: PrecisionMode, a_pressed: bool, b_pressed: bool) -> PrecisionMode {
    if a_pressed && !b_pressed {
        PrecisionMode::Coarse
    } else if b_pressed && !a_pressed {
        PrecisionMode::Fine
    } else {
        current
    }
}

/// Resolves the two button states into the next precision mode.
pub fn select_mode(current: PrecisionMode, a_pressed: bool, b_pressed: bool) -> (r: PrecisionMode)
    ensures
        r == next_mode(current, a_pressed, b_pressed),
{
    if a_pressed && !b_pressed {
        PrecisionMode::Coarse
    } else if b_pressed && !a_pressed {
        PrecisionMode::Fine
    } else {
        current
    }
}

} // verus!
