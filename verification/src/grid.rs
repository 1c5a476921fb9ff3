//! The trusted boundary around the `array2d` crate, which stores the cells
//! of the board as a fixed-size two-dimensional array.
//!
//! `grid_cells` names the contents of such an array, row by row; the
//! wrappers below state what each `array2d` call does in terms of that
//! name, and everything else in the crate is proved against them.

use vstd::prelude::*;

verus! {

#[verifier::external_type_specification]
#[verifier::external_body]
#[verifier::reject_recursive_types(T)]
pub struct ExArray2D<T>(array2d::Array2D<T>);

/// The contents of the array: one sequence per row, in row order.
pub uninterp spec fn grid_cells(g: array2d::Array2D<Option<u64>>) -> Seq<Seq<Option<u64>>>;

/// Relies on `array2d::Array2D::filled_with`: builds a `num_rows` by
/// `num_columns` array with every element a copy of the given one (here:
/// an empty cell). The elements are kept in one backing vector of length
/// `num_rows * num_columns`; the bound on that product keeps its byte
/// size within what a single allocation may hold, so the call cannot
/// panic on a capacity overflow.
#[verifier::external_body]
pub(crate) fn grid_new(num_rows: usize, num_columns: usize) -> (g: array2d::Array2D<Option<u64>>)
    requires
        num_rows * num_columns <= usize::MAX / 32,
    ensures
        grid_cells(g).len() == num_rows,
        forall|r: int| 0 <= r < num_rows ==> (#[trigger] grid_cells(g)[r]).len() == num_columns,
        forall|r: int, c: int|
            0 <= r < num_rows && 0 <= c < num_columns ==> (#[trigger] grid_cells(g)[r][c]) is None,
{
    array2d::Array2D::filled_with(None, num_rows, num_columns)
}

/// Relies on `array2d::Array2D::get`: the element at (`row`, `column`)
/// when both indices are in range, and `None` otherwise.
#[verifier::external_body]
pub(crate) fn grid_get(g: &array2d::Array2D<Option<u64>>, row: usize, column: usize) -> (res: Option<Option<u64>>)
    ensures
        res == (if row < grid_cells(*g).len() && column < grid_cells(*g)[row as int].len() {
            Some(grid_cells(*g)[row as int][column as int])
        } else {
            None
        }),
{
    g.get(row, column).copied()
}

/// Relies on `array2d::Array2D::set`: overwrites the element at
/// (`row`, `column`) and returns `Ok` exactly when both indices are in
/// range; out of range it changes nothing and reports an error, which the
/// caller maps to an error of this crate.
#[verifier::external_body]
pub(crate) fn grid_set(g: &mut array2d::Array2D<Option<u64>>, row: usize, column: usize, v: Option<u64>) -> (ok: bool)
    ensures
        ok == (row < grid_cells(*old(g)).len() && column < grid_cells(*old(g))[row as int].len()),
        ok ==> grid_cells(*final(g)) == grid_cells(*old(g)).update(
            row as int,
            grid_cells(*old(g))[row as int].update(column as int, v),
        ),
        !ok ==> grid_cells(*final(g)) == grid_cells(*old(g)),
{
    g.set(row, column, v).is_ok()
}

} // verus!
