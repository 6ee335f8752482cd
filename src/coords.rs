//! Square indices and their (row, column) coordinates.
//!
//! A square index lies in `0..64`; its row (rank) is `index / 8` and its
//! column (file) is `index % 8`, so `to_idx(row, col) == row * 8 + col`.
use vstd::prelude::*;

verus! {

/// Number of squares on the board.
pub const BOARD_SIZE: usize = 64;

/// Row (rank, zero-based) of a square index.
pub open spec fn row_of(idx: int) -> int {
    idx / 8
}

/// Column (file, zero-based) of a square index.
pub open spec fn col_of(idx: int) -> int {
    idx % 8
}

/// Square index of a (row, column) pair.
pub open spec fn index_of(row: int, col: int) -> int {
    row * 8 + col
}

/// Column of a square index.
pub fn get_col(idx: usize) -> (r: usize)
    ensures
        r == col_of(idx as int),
        r < 8,
{
    idx % 8
}

/// Row of a square index.
pub fn get_row(idx: usize) -> (r: usize)
    ensures
        r == row_of(idx as int),
        idx < BOARD_SIZE ==> r < 8,
{
    idx / 8
}

/// Square index of a (row, column) pair. No range check is made: the result
/// names a square of the board only when both coordinates are below 8.
pub fn to_idx(row: usize, col: usize) -> (r: usize)
    requires
        row * 8 + col <= usize::MAX,
    ensures
        r == index_of(row as int, col as int),
{
    row * 8 + col
}

/// Splitting an index into its row and column and joining them again gives
/// back the index.
pub proof fn lemma_index_round_trip(i: int)
    requires
        0 <= i < 64,
    ensures
        index_of(row_of(i), col_of(i)) == i,
        0 <= row_of(i) < 8,
        0 <= col_of(i) < 8,
{
}

/// A pair of coordinates on the board is recovered from its index.
pub proof fn lemma_coordinates_round_trip(row: int, col: int)
    requires
        0 <= row < 8,
        0 <= col < 8,
    ensures
        0 <= index_of(row, col) < 64,
        row_of(index_of(row, col)) == row,
        col_of(index_of(row, col)) == col,
{
}

} // verus!
