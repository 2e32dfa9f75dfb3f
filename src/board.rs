//! The board as a grid of rows of cell values, and its single-cell update.
use vstd::prelude::*;

use crate::board_value::BoardValue;

verus! {

/// The rows of a board, each as the sequence of its cells.
pub open spec fn grid_view(b: &Vec<Vec<BoardValue>>) -> Seq<Seq<BoardValue>> {
    b@.map_values(|row: Vec<BoardValue>| row@)
}

/// All rows have the length of the first one.
pub open spec fn is_rectangular<T>(g: Seq<Seq<T>>) -> bool {
    forall|i: int| 0 <= i < g.len() ==> #[trigger] g[i].len() == g[0].len()
}

/// (`row`, `column`) names a cell of the grid.
pub open spec fn in_bounds<T>(g: Seq<Seq<T>>, row: int, column: int) -> bool {
    0 <= row < g.len() && 0 <= column < g[row].len()
}

/// The grid with the cell at (`row`, `column`) set to `value`; the grid as it
/// is where no such cell exists.
pub open spec fn with_cell(
    g: Seq<Seq<BoardValue>>,
    row: int,
    column: int,
    value: BoardValue,
) -> Seq<Seq<BoardValue>> {
    if in_bounds(g, row, column) {
        g.update(row, g[row].update(column, value))
    } else {
        g
    }
}

/// Setting one cell keeps the shape of the grid: the number of rows, the
/// length of each, and so its being rectangular.
pub proof fn lemma_with_cell_keeps_shape(
    g: Seq<Seq<BoardValue>>,
    row: int,
    column: int,
    value: BoardValue,
)
    ensures
        with_cell(g, row, column, value).len() == g.len(),
        forall|i: int| 0 <= i < g.len() ==> (#[trigger] with_cell(g, row, column, value)[i]).len() == g[i].len(),
        is_rectangular(g) ==> is_rectangular(with_cell(g, row, column, value)),
{
    let h = with_cell(g, row, column, value);
    if is_rectangular(g) && g.len() > 0 {
        assert forall|i: int| 0 <= i < h.len() implies #[trigger] h[i].len() == h[0].len() by {
            assert(h[i].len() == g[i].len());
            assert(h[0].len() == g[0].len());
        }
    }
}

/// Sets the cell at (`row`, `column`), if the board has one there.
pub fn set_cell(board: &mut Vec<Vec<BoardValue>>, row: usize, column: usize, value: BoardValue)
    ensures
        grid_view(final(board)) == with_cell(grid_view(old(board)), row as int, column as int, value),
{
    if row < board.len() && column < board[row].len() {
        let mut cells = board[row].clone();
        cells.set(column, value);
        board.set(row, cells);
        assert(grid_view(board) =~= with_cell(grid_view(old(board)), row as int, column as int, value));
    }
}

} // verus!
