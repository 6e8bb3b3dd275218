//! The geometry of the board in whole numbers: which grid cell a square
//! index names, and which of the two shades the square is painted in.
//!
//! Squares are numbered 0 to 63 in row-major order, starting at the bottom
//! left corner: the index grows by one along a row and by eight from one row
//! to the row above it.

use vstd::prelude::*;

verus! {

/// Number of squares along one edge of the board.
pub const BOARD_SIDE: usize = 8;

/// Number of squares on the board.
pub const SQUARE_COUNT: usize = 64;

/// The paint of a square.
#[derive(Debug, Copy, Clone, PartialEq, Eq, Structural)]
pub enum Shade {
    Dark,
    Light,
}

/// The place of a square in the grid, counted from the bottom left corner.
#[derive(Debug, Copy, Clone, PartialEq, Eq, Structural)]
pub struct GridCell {
    pub column: usize,
    pub row: usize,
}

/// Column of the square with index `idx`.
pub open spec fn column_at(idx: int) -> int {
    idx % 8
}

/// Row of the square with index `idx`.
pub open spec fn row_at(idx: int) -> int {
    idx / 8
}

/// Index of the square in `row` and `column`.
pub open spec fn index_at(row: int, column: int) -> int {
    row * 8 + column
}

/// Shade of the square with index `idx`: dark where column and row add up
/// to an even number, so that the bottom left corner is dark.
pub open spec fn shade_at(idx: int) -> Shade {
    if (column_at(idx) + row_at(idx)) % 2 == 0 {
        Shade::Dark
    } else {
        Shade::Light
    }
}

/// The grid cell of the square with index `idx`.
pub open spec fn cell_at(idx: int) -> GridCell {
    GridCell { column: column_at(idx) as usize, row: row_at(idx) as usize }
}

/// The grid cells of all squares, in index order.
pub open spec fn all_cells() -> Seq<GridCell> {
    Seq::new(64, |idx: int| cell_at(idx))
}

/// Column of a square, from its index.
pub fn column_of(idx: usize) -> (column: usize)
    ensures
        column == column_at(idx as int),
        column < BOARD_SIDE,
{
    idx % BOARD_SIDE
}

/// Row of a square, from its index.
pub fn row_of(idx: usize) -> (row: usize)
    ensures
        row == row_at(idx as int),
        idx < SQUARE_COUNT ==> row < BOARD_SIDE,
{
    idx / BOARD_SIDE
}

/// Shade of a square, from its index.
pub fn shade_of(idx: usize) -> (shade: Shade)
    ensures
        shade == shade_at(idx as int),
{
    if (column_of(idx) + row_of(idx)) % 2 == 0 {
        Shade::Dark
    } else {
        Shade::Light
    }
}

/// The grid cell of every square of the board, in index order.
pub fn grid_cells() -> (cells: Vec<GridCell>)
    ensures
        cells@ == all_cells(),
{
    let mut cells: Vec<GridCell> = Vec::new();
    let mut idx: usize = 0;
    while idx < SQUARE_COUNT
        invariant
            idx <= SQUARE_COUNT,
            cells@.len() == idx,
            forall|k: int| 0 <= k < idx ==> cells@[k] == cell_at(k),
        decreases SQUARE_COUNT - idx,
    {
        cells.push(GridCell { column: column_of(idx), row: row_of(idx) });
        idx += 1;
    }
    assert(cells@ =~= all_cells());
    cells
}

/// Row-major numbering: a square's index is eight times its row plus its
/// column, the column is below eight, and on the board so is the row.
pub proof fn lemma_index_of_cell(idx: int)
    requires
        0 <= idx,
    ensures
        index_at(row_at(idx), column_at(idx)) == idx,
        0 <= column_at(idx) < 8,
        0 <= row_at(idx),
        idx < 64 <==> row_at(idx) < 8,
{
}

/// Every cell of the grid is the cell of exactly the index that row-major
/// numbering gives it.
pub proof fn lemma_cell_of_index(row: int, column: int)
    requires
        0 <= row,
        0 <= column < 8,
    ensures
        row_at(index_at(row, column)) == row,
        column_at(index_at(row, column)) == column,
        0 <= index_at(row, column),
        row < 8 <==> index_at(row, column) < 64,
{
}

/// Squares that share an edge differ in shade: the next square in a row,
/// and the square one row up.
pub proof fn lemma_neighbours_differ_in_shade(idx: int)
    requires
        0 <= idx,
    ensures
        column_at(idx) < 7 ==> shade_at(idx + 1) != shade_at(idx),
        shade_at(idx + 8) != shade_at(idx),
{
}

} // verus!
