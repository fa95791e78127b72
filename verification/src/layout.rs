//! Index arithmetic shared by every accessor and traversal.
//!
//! Cells are stored row by row, so the cell at `(row, column)` of a grid with
//! `columns` columns lives at offset `row * columns + column`. Column-major
//! order is only a way of walking that storage: it visits the columns one
//! after the other and, inside a column, the rows from top to bottom.

use vstd::arithmetic::div_mod::lemma_fundamental_div_mod;
use vstd::arithmetic::div_mod::lemma_fundamental_div_mod_converse;
use vstd::prelude::*;

verus! {

/// Whether `(row, column)` names a cell of a `rows` by `columns` grid.
pub open spec fn in_bounds(row: int, column: int, rows: int, columns: int) -> bool {
    0 <= row < rows && 0 <= column < columns
}

/// Offset of the cell `(row, column)` in row-major storage.
pub open spec fn linear_index(row: int, column: int, columns: int) -> int {
    row * columns + column
}

/// Position of the cell `(row, column)` in column-major traversal.
pub open spec fn column_major_position(row: int, column: int, rows: int) -> int {
    column * rows + row
}

/// The `(row, column)` pair visited at step `index` of row-major traversal.
pub open spec fn row_major_coordinate(index: int, columns: int) -> (int, int) {
    (index / columns, index % columns)
}

/// The `(row, column)` pair visited at step `index` of column-major traversal.
pub open spec fn column_major_coordinate(index: int, rows: int) -> (int, int) {
    (index % rows, index / rows)
}

/// All coordinates of a grid, the column varying fastest.
pub open spec fn row_major_indices(rows: int, columns: int) -> Seq<(int, int)> {
    Seq::new((rows * columns) as nat, |index: int| row_major_coordinate(index, columns))
}

/// All coordinates of a grid, the row varying fastest.
pub open spec fn column_major_indices(rows: int, columns: int) -> Seq<(int, int)> {
    Seq::new((rows * columns) as nat, |index: int| column_major_coordinate(index, rows))
}

/// The pairs of `pairs` as mathematical integers.
pub open spec fn coordinates(pairs: Seq<(usize, usize)>) -> Seq<(int, int)> {
    Seq::new(pairs.len(), |index: int| (pairs[index].0 as int, pairs[index].1 as int))
}

/// A product of two non-negative factors is non-negative, and it is zero
/// exactly when one factor is.
pub proof fn lemma_area(rows: int, columns: int)
    by (nonlinear_arith)
    requires
        0 <= rows,
        0 <= columns,
    ensures
        0 <= rows * columns,
        rows * columns == columns * rows,
        rows * columns == 0 <==> rows == 0 || columns == 0,
        rows > 0 ==> columns <= rows * columns,
        columns > 0 ==> rows <= rows * columns,
{
}

/// `major * stride + minor` with `minor < stride` and `major < count` stays
/// below `count * stride`, and so does the whole stripe that starts at
/// `major * stride`.
pub proof fn lemma_stripe(major: int, count: int, stride: int)
    by (nonlinear_arith)
    requires
        0 <= major < count,
        0 <= stride,
    ensures
        0 <= major * stride,
        major * stride + stride <= count * stride,
        (major + 1) * stride == major * stride + stride,
{
}

/// Every in-range coordinate has an offset inside the storage.
pub proof fn lemma_linear_index_in_range(row: int, column: int, rows: int, columns: int)
    requires
        in_bounds(row, column, rows, columns),
    ensures
        0 <= linear_index(row, column, columns) < rows * columns,
        0 <= column_major_position(row, column, rows) < rows * columns,
{
    lemma_stripe(row, rows, columns);
    lemma_stripe(column, columns, rows);
    lemma_area(rows, columns);
}

/// Dividing `major * stride + minor` by `stride` gives back both parts.
pub proof fn lemma_split(major: int, minor: int, stride: int)
    requires
        0 <= minor < stride,
    ensures
        (major * stride + minor) / stride == major,
        (major * stride + minor) % stride == minor,
{
    assert(major * stride == stride * major) by (nonlinear_arith);
    lemma_fundamental_div_mod_converse(major * stride + minor, stride, major, minor);
}

/// An index below `count * stride` splits into a quotient below `count` and
/// a remainder below `stride`, and the two parts give the index back.
pub proof fn lemma_join(index: int, count: int, stride: int)
    requires
        0 <= index < count * stride,
        0 <= count,
        0 <= stride,
    ensures
        0 < stride,
        0 <= index / stride < count,
        0 <= index % stride < stride,
        (index / stride) * stride + index % stride == index,
{
    assert(0 < stride) by (nonlinear_arith)
        requires
            0 <= index < count * stride,
            0 <= stride,
    ;
    lemma_fundamental_div_mod(index, stride);
    let q = index / stride;
    let r = index % stride;
    assert(stride * q == q * stride) by (nonlinear_arith);
    assert(0 <= q < count) by (nonlinear_arith)
        requires
            index == q * stride + r,
            0 <= r < stride,
            0 <= index < count * stride,
            0 < stride,
    ;
}

/// The row-major mapping is one to one: the coordinate found at the offset
/// of `(row, column)` is `(row, column)` again.
pub proof fn lemma_row_major_coordinate_of_index(row: int, column: int, columns: int)
    requires
        0 <= column < columns,
    ensures
        row_major_coordinate(linear_index(row, column, columns), columns) == (row, column),
{
    lemma_split(row, column, columns);
}

/// The row-major mapping is onto: every offset below `rows * columns` is
/// the offset of the in-range coordinate found there.
pub proof fn lemma_index_of_row_major_coordinate(index: int, rows: int, columns: int)
    requires
        0 <= rows,
        0 <= columns,
        0 <= index < rows * columns,
    ensures
        ({
            let (row, column) = row_major_coordinate(index, columns);
            &&& in_bounds(row, column, rows, columns)
            &&& linear_index(row, column, columns) == index
        }),
{
    lemma_join(index, rows, columns);
}

/// The column-major counterpart of [`lemma_row_major_coordinate_of_index`].
pub proof fn lemma_column_major_coordinate_of_position(row: int, column: int, rows: int)
    requires
        0 <= row < rows,
    ensures
        column_major_coordinate(column_major_position(row, column, rows), rows) == (row, column),
{
    lemma_split(column, row, rows);
}

/// The column-major counterpart of [`lemma_index_of_row_major_coordinate`].
pub proof fn lemma_position_of_column_major_coordinate(index: int, rows: int, columns: int)
    requires
        0 <= rows,
        0 <= columns,
        0 <= index < rows * columns,
    ensures
        ({
            let (row, column) = column_major_coordinate(index, rows);
            &&& in_bounds(row, column, rows, columns)
            &&& column_major_position(row, column, rows) == index
        }),
{
    lemma_area(rows, columns);
    lemma_join(index, columns, rows);
}

} // verus!
