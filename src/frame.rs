//! The 5x5 frame buffer: clearing it and lighting the cell of a reading.
use vstd::prelude::*;

use crate::mode::PrecisionMode;
use crate::quantizer::{column_of, quantize, row_of};

verus! {

/// One display frame: `frame[row][column]` is 1 where the LED is lit, 0 where
/// it is off.
pub type FrameBuffer = [[u8; 5]; 5];

/// The frame as rows of cell values.
pub open spec fn grid_of(fb: FrameBuffer) -> Seq<Seq<u8>> {
    Seq::new(5, |r: int| fb@[r]@)
}

/// The frame with every cell off.
pub open spec fn blank_grid() -> Seq<Seq<u8>> {
    Seq::new(5, |r: int| Seq::new(5, |c: int| 0u8))
}

/// The frame with only the cell at `(row, col)` lit.
pub open spec fn single_lit_grid(row: int, col: int) -> Seq<Seq<u8>> {
    Seq::new(5, |r: int| Seq::new(5, |c: int| if r == row && c == col { 1u8 } else { 0u8 }))
}

/// The positions of the lit cells of a 5x5 grid.
pub open spec fn lit_cells(g: Seq<Seq<u8>>) -> Set<(int, int)> {
    Set::new(|p: (int, int)| 0 <= p.0 < 5 && 0 <= p.1 < 5 && g[p.0][p.1] != 0)
}

/// A blank grid has no lit cell.
pub proof fn lemma_blank_grid_lit_cells()
    ensures
        lit_cells(blank_grid()) == Set::<(int, int)>::empty(),
        lit_cells(blank_grid()).len() == 0,
{
    assert(lit_cells(blank_grid()) =~= Set::<(int, int)>::empty());
}

/// A grid with a single lit cell inside the matrix has exactly that one lit cell.
pub proof fn lemma_single_lit_grid_lit_cells(row: int, col: int)
    requires
        0 <= row < 5,
        0 <= col < 5,
    ensures
        lit_cells(single_lit_grid(row, col)) == set![(row, col)],
        lit_cells(single_lit_grid(row, col)).len() == 1,
{
    assert(lit_cells(single_lit_grid(row, col)) =~= set![(row, col)]);
}

/// Turns every LED of the frame off.
pub fn screen_zero(board_in: &mut FrameBuffer)
    ensures
        grid_of(*final(board_in)) == blank_grid(),
{
    let mut i: usize = 0;
    while i < 5
        invariant
            0 <= i <= 5,
            forall|r: int, c: int| 0 <= r < i && 0 <= c < 5 ==> board_in@[r]@[c] == 0,
        decreases 5 - i,
    {
        let mut j: usize = 0;
        while j < 5
            invariant
                0 <= i < 5,
                0 <= j <= 5,
                forall|r: int, c: int| 0 <= r < i && 0 <= c < 5 ==> board_in@[r]@[c] == 0,
                forall|c: int| 0 <= c < j ==> board_in@[i as int]@[c] == 0,
            decreases 5 - j,
        {
            board_in[i][j] = 0;
            j = j + 1;
        }
        i = i + 1;
    }
    assert(grid_of(*board_in) =~~= blank_grid());
}

/// Lights the cell that the lateral readings `x` and `y` map to in `mode`,
/// leaving every other cell as it was.
pub fn screen_writer(board_in: &mut FrameBuffer, x: i32, y: i32, mode: PrecisionMode)
    ensures
        grid_of(*final(board_in)) == grid_of(*old(board_in)).update(
            row_of(y as int, mode),
            grid_of(*old(board_in))[row_of(y as int, mode)].update(column_of(x as int, mode), 1u8),
        ),
{
    let (row, col) = quantize(mode, x, y);
    board_in[row][col] = 1;
    assert(grid_of(*board_in) =~~= grid_of(*old(board_in)).update(
        row as int,
        grid_of(*old(board_in))[row as int].update(col as int, 1u8),
    ));
}

} // verus!
