//! Accelerometer samples and the orientation gate.
use vstd::prelude::*;

verus! {

/// One accelerometer reading in raw sensor units: `x` and `y` lateral, `z`
/// vertical.
#[derive(Clone, Copy, Debug, PartialEq, Eq, Structural)]
pub struct AccelSample {
    pub x: i32,
    pub y: i32,
    pub z: i32,
}

/// What the display does with a fresh sample.
#[derive(Clone, Copy, Debug, PartialEq, Eq, Structural)]
pub enum Action {
    /// The board is upside down: every cell goes off.
    Blank,
    /// The board is right side up: the cell of the reading is lit.
    Render,
}

/// Blank when the vertical reading is positive (matrix facing the ground),
/// render otherwise, a reading of exactly zero included.
pub open spec fn action_for(z: int) -> Action {
    if z > 0 {
        Action::Blank
    } else {
        Action::Render
    }
}

/// Decides from the vertical reading whether this tick renders or blanks.
pub fn orientation_gate(z: i32) -> (r: Action)
    ensures
        r == action_for(z as int),
{
    if z > 0 {
        Action::Blank
    } else {
        Action::Render
    }
}

} // verus!
