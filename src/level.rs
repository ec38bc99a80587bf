//! The state of the level across ticks: the sticky mode and the frame shown.
use vstd::prelude::*;

use crate::frame::{
    blank_grid, grid_of, lemma_blank_grid_lit_cells, lemma_single_lit_grid_lit_cells, lit_cells,
    screen_writer, screen_zero, single_lit_grid, FrameBuffer,
};
use crate::gate::{action_for, orientation_gate, AccelSample, Action};
use crate::mode::{next_mode, select_mode, PrecisionMode};
use crate::quantizer::{column_of, row_of};

verus! {

/// Abstract state of the level: the active mode and the frame's cells.
pub struct LevelView {
    pub mode: PrecisionMode,
    pub grid: Seq<Seq<u8>>,
}

/// The frame that a fresh sample produces in `mode`: blank when the board is
/// upside down, else only the cell of the lateral readings lit.
pub open spec fn grid_after(mode: PrecisionMode, s: AccelSample) -> Seq<Seq<u8>> {
    match action_for(s.z as int) {
        Action::Blank => blank_grid(),
        Action::Render => single_lit_grid(row_of(s.y as int, mode), column_of(s.x as int, mode)),
    }
}

impl LevelView {
    /// At most one cell is lit: the frame is blank or has a single lit cell.
    pub open spec fn wf(self) -> bool {
        self.grid == blank_grid() || exists|r: int, c: int|
            0 <= r < 5 && 0 <= c < 5 && self.grid == #[trigger] single_lit_grid(r, c)
    }

    /// The state after one tick with the given buttons and, if the sensor
    /// had one ready, a fresh sample; without one the frame stays as it was.
    pub open spec fn next(self, a_pressed: bool, b_pressed: bool, sample: Option<AccelSample>) -> LevelView {
        let mode = next_mode(self.mode, a_pressed, b_pressed);
        LevelView {
            mode,
            grid: match sample {
                Some(s) => grid_after(mode, s),
                None => self.grid,
            },
        }
    }
}

/// The control loop's state: the precision mode and the frame to display.
pub struct Level {
    mode: PrecisionMode,
    frame: FrameBuffer,
}

impl View for Level {
    type V = LevelView;

    closed spec fn view(&self) -> LevelView {
        LevelView { mode: self.mode, grid: grid_of(self.frame) }
    }
}

impl Level {
    /// A level in `Coarse` mode with a blank frame.
    pub fn new() -> (r: Level)
        ensures
            r@ == (LevelView { mode: PrecisionMode::Coarse, grid: blank_grid() }),
            r@.wf(),
    {
        let frame: FrameBuffer = [[0u8; 5]; 5];
        let r = Level { mode: PrecisionMode::Coarse, frame };
        assert(grid_of(r.frame) =~~= blank_grid());
        r
    }

    /// One tick: updates the mode from the buttons and, given a fresh sample,
    /// blanks the frame or lights exactly the cell of the reading.
    pub fn tick(&mut self, a_pressed: bool, b_pressed: bool, sample: Option<AccelSample>)
        requires
            old(self)@.wf(),
        ensures
            final(self)@ == old(self)@.next(a_pressed, b_pressed, sample),
            final(self)@.wf(),
            sample matches Some(s) ==> lit_cells(final(self)@.grid).len() == (if s.z > 0 { 0int } else { 1int }),
    {
        self.mode = select_mode(self.mode, a_pressed, b_pressed);
        match sample {
            Some(s) => {
                match orientation_gate(s.z) {
                    Action::Blank => {
                        screen_zero(&mut self.frame);
                        proof {
                            lemma_blank_grid_lit_cells();
                        }
                    },
                    Action::Render => {
                        screen_zero(&mut self.frame);
                        screen_writer(&mut self.frame, s.x, s.y, self.mode);
                        let ghost row = row_of(s.y as int, self.mode);
                        let ghost col = column_of(s.x as int, self.mode);
                        assert(grid_of(self.frame) =~~= single_lit_grid(row, col));
                        proof {
                            lemma_single_lit_grid_lit_cells(row, col);
                        }
                    },
                }
            },
            None => {},
        }
    }

    /// The active precision mode.
    pub fn mode(&self) -> (r: PrecisionMode)
        ensures
            r == self@.mode,
    {
        self.mode
    }

    /// The frame to hand to the display.
    pub fn frame(&self) -> (r: FrameBuffer)
        ensures
            grid_of(r) == self@.grid,
    {
        self.frame
    }
}

} // verus!
