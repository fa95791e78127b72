//! Laws that relate the operations of a grid to one another.
//!
//! Each law is stated over the model that the contracts of the executable
//! array use, so that it applies to whatever those operations return.

use crate::layout::column_major_indices;
use crate::layout::column_major_position;
use crate::layout::in_bounds;
use crate::layout::lemma_area;
use crate::layout::lemma_column_major_coordinate_of_position;
use crate::layout::lemma_index_of_row_major_coordinate;
use crate::layout::lemma_join;
use crate::layout::lemma_linear_index_in_range;
use crate::layout::lemma_position_of_column_major_coordinate;
use crate::layout::lemma_row_major_coordinate_of_index;
use crate::layout::linear_index;
use crate::layout::row_major_indices;
use crate::model::clone_is_exact;
use crate::model::copies;
use crate::model::lemma_flatten_uniform;
use crate::model::lemma_row_major_is_storage;
use crate::model::nested_copies;
use crate::model::rectangular;
use crate::model::width;
use crate::model::Grid;
use vstd::prelude::*;

verus! {

/// The cell of `from_rows(nested)` at `(row, column)` is `nested[row][column]`.
pub proof fn lemma_from_rows_cells<T>(nested: Seq<Seq<T>>, row: int, column: int)
    requires
        rectangular(nested),
        0 <= row < nested.len(),
        0 <= column < width(nested),
    ensures
        Grid::from_rows(nested).wf(),
        Grid::from_rows(nested).at(row, column) == nested[row][column],
{
    let columns = width(nested) as int;
    lemma_linear_index_in_range(row, column, nested.len() as int, columns);
    lemma_row_major_coordinate_of_index(row, column, columns);
}

/// The cell of `from_columns(nested)` at `(row, column)` is
/// `nested[column][row]`.
pub proof fn lemma_from_columns_cells<T>(nested: Seq<Seq<T>>, row: int, column: int)
    requires
        rectangular(nested),
        0 <= row < width(nested),
        0 <= column < nested.len(),
    ensures
        Grid::from_columns(nested).wf(),
        Grid::from_columns(nested).at(row, column) == nested[column][row],
{
    let columns = nested.len() as int;
    lemma_linear_index_in_range(row, column, width(nested) as int, columns);
    lemma_row_major_coordinate_of_index(row, column, columns);
}

/// The cell of `from_column_major(rows, columns, flat)` at `(row, column)`
/// is the item of `flat` at position `column * rows + row`.
pub proof fn lemma_from_column_major_cells<T>(
    rows: nat,
    columns: nat,
    flat: Seq<T>,
    row: int,
    column: int,
)
    requires
        flat.len() == rows * columns,
        in_bounds(row, column, rows as int, columns as int),
    ensures
        Grid::from_column_major(rows, columns, flat).wf(),
        Grid::from_column_major(rows, columns, flat).at(row, column) == flat[column_major_position(
            row,
            column,
            rows as int,
        )],
{
    lemma_linear_index_in_range(row, column, rows as int, columns as int);
    lemma_row_major_coordinate_of_index(row, column, columns as int);
}

/// Round trip by rows: the rows of the grid built from rectangular rows
/// are those rows.
pub proof fn lemma_rows_round_trip<T>(nested: Seq<Seq<T>>)
    requires
        rectangular(nested),
    ensures
        Grid::from_rows(nested).wf(),
        Grid::from_rows(nested).as_rows() == nested,
{
    let grid = Grid::from_rows(nested);
    assert forall|row: int| 0 <= row < nested.len() implies #[trigger] grid.as_rows()[row]
        == nested[row] by {
        assert forall|column: int| 0 <= column < width(nested) implies grid.row(row)[column]
            == nested[row][column] by {
            lemma_from_rows_cells(nested, row, column);
        }
        assert(grid.row(row) =~= nested[row]);
    }
    assert(grid.as_rows() =~= nested);
}

/// Round trip by columns: the columns of the grid built from rectangular
/// columns are those columns.
pub proof fn lemma_columns_round_trip<T>(nested: Seq<Seq<T>>)
    requires
        rectangular(nested),
    ensures
        Grid::from_columns(nested).wf(),
        Grid::from_columns(nested).as_columns() == nested,
{
    let grid = Grid::from_columns(nested);
    lemma_area(width(nested) as int, nested.len() as int);
    assert forall|column: int| 0 <= column < nested.len() implies #[trigger] grid.as_columns()[column]
        == nested[column] by {
        assert forall|row: int| 0 <= row < width(nested) implies grid.column(column)[row]
            == nested[column][row] by {
            lemma_from_columns_cells(nested, row, column);
        }
        assert(grid.column(column) =~= nested[column]);
    }
    assert(grid.as_columns() =~= nested);
}

/// Round trip in row major order: the row-major order of the grid built
/// from a flat sequence of the right length is that sequence.
pub proof fn lemma_row_major_round_trip<T>(rows: nat, columns: nat, flat: Seq<T>)
    requires
        flat.len() == rows * columns,
    ensures
        Grid::from_row_major(rows, columns, flat).wf(),
        Grid::from_row_major(rows, columns, flat).row_major() == flat,
{
    lemma_row_major_is_storage(Grid::from_row_major(rows, columns, flat));
}

/// Round trip in column major order: the column-major order of the grid
/// built from a flat column-major sequence of the right length is that
/// sequence.
pub proof fn lemma_column_major_round_trip<T>(rows: nat, columns: nat, flat: Seq<T>)
    requires
        flat.len() == rows * columns,
    ensures
        Grid::from_column_major(rows, columns, flat).wf(),
        Grid::from_column_major(rows, columns, flat).column_major() == flat,
{
    let grid = Grid::from_column_major(rows, columns, flat);
    assert forall|index: int| 0 <= index < flat.len() implies grid.column_major()[index]
        == flat[index] by {
        lemma_position_of_column_major_coordinate(index, rows as int, columns as int);
        let row = index % (rows as int);
        let column = index / (rows as int);
        lemma_from_column_major_cells(rows, columns, flat, row, column);
    }
    assert(grid.column_major() =~= flat);
}

/// Where cloning is exact, a sequence of clones is the sequence itself.
pub proof fn lemma_exact_copies<T: Clone>(source: Seq<T>, copy: Seq<T>)
    requires
        clone_is_exact::<T>(),
        copies(source, copy),
    ensures
        copy == source,
{
    assert(copy =~= source);
}

/// Where cloning is exact, nested sequences of clones are the nested
/// sequences themselves.
pub proof fn lemma_exact_nested_copies<T: Clone>(source: Seq<Seq<T>>, copy: Seq<Seq<T>>)
    requires
        clone_is_exact::<T>(),
        nested_copies(source, copy),
    ensures
        copy == source,
{
    assert forall|i: int| 0 <= i < source.len() implies #[trigger] copy[i] == source[i] by {
        lemma_exact_copies(source[i], copy[i]);
    }
    assert(copy =~= source);
}

/// Where cloning is exact, a grid of clones is the grid itself.
pub proof fn lemma_exact_copy_of_grid<T: Clone>(source: Grid<T>, copy: Grid<T>)
    requires
        clone_is_exact::<T>(),
        copy.is_copy_of(source),
    ensures
        copy == source,
{
    lemma_exact_copies(source.cells, copy.cells);
}

/// Round trip through the executable array: where cloning is exact, what
/// `as_rows` gives for an array that `from_rows` built from `nested` is
/// `nested`.
pub proof fn lemma_rows_round_trip_of_copies<T: Clone>(
    nested: Seq<Seq<T>>,
    built: Grid<T>,
    read: Seq<Seq<T>>,
)
    requires
        clone_is_exact::<T>(),
        rectangular(nested),
        built.is_copy_of(Grid::from_rows(nested)),
        nested_copies(built.as_rows(), read),
    ensures
        read == nested,
{
    lemma_exact_copy_of_grid(Grid::from_rows(nested), built);
    lemma_exact_nested_copies(built.as_rows(), read);
    lemma_rows_round_trip(nested);
}

/// Round trip through the executable array: where cloning is exact, what
/// `as_columns` gives for an array that `from_columns` built from `nested`
/// is `nested`.
pub proof fn lemma_columns_round_trip_of_copies<T: Clone>(
    nested: Seq<Seq<T>>,
    built: Grid<T>,
    read: Seq<Seq<T>>,
)
    requires
        clone_is_exact::<T>(),
        rectangular(nested),
        built.is_copy_of(Grid::from_columns(nested)),
        nested_copies(built.as_columns(), read),
    ensures
        read == nested,
{
    lemma_exact_copy_of_grid(Grid::from_columns(nested), built);
    lemma_exact_nested_copies(built.as_columns(), read);
    lemma_columns_round_trip(nested);
}

/// Round trip through the executable array: where cloning is exact, what
/// `as_row_major` gives for an array that `from_row_major` built from
/// `flat` is `flat`.
pub proof fn lemma_row_major_round_trip_of_copies<T: Clone>(
    rows: nat,
    columns: nat,
    flat: Seq<T>,
    built: Grid<T>,
    read: Seq<T>,
)
    requires
        clone_is_exact::<T>(),
        flat.len() == rows * columns,
        built.is_copy_of(Grid::from_row_major(rows, columns, flat)),
        copies(built.row_major(), read),
    ensures
        read == flat,
{
    lemma_exact_copy_of_grid(Grid::from_row_major(rows, columns, flat), built);
    lemma_exact_copies(built.row_major(), read);
    lemma_row_major_round_trip(rows, columns, flat);
}

/// Round trip through the executable array: where cloning is exact, what
/// `as_column_major` gives for an array that `from_column_major` built
/// from `flat` is `flat`.
pub proof fn lemma_column_major_round_trip_of_copies<T: Clone>(
    rows: nat,
    columns: nat,
    flat: Seq<T>,
    built: Grid<T>,
    read: Seq<T>,
)
    requires
        clone_is_exact::<T>(),
        flat.len() == rows * columns,
        built.is_copy_of(Grid::from_column_major(rows, columns, flat)),
        copies(built.column_major(), read),
    ensures
        read == flat,
{
    lemma_exact_copy_of_grid(Grid::from_column_major(rows, columns, flat), built);
    lemma_exact_copies(built.column_major(), read);
    lemma_column_major_round_trip(rows, columns, flat);
}

/// The four ways of building a grid agree: a well-formed grid is what
/// `from_row_major` builds from its row-major order, what
/// `from_column_major` builds from its column-major order, what `from_rows`
/// builds from its rows and what `from_columns` builds from its columns.
///
/// A grid without rows has no sequence of rows that could carry its number
/// of columns, so `from_rows` gives it back only if it has no columns
/// either; the same holds of `from_columns` and a grid without columns.
pub proof fn lemma_constructions_agree<T>(grid: Grid<T>)
    requires
        grid.wf(),
    ensures
        Grid::from_row_major(grid.rows, grid.columns, grid.row_major()) == grid,
        Grid::from_column_major(grid.rows, grid.columns, grid.column_major()) == grid,
        grid.rows > 0 || grid.columns == 0 ==> Grid::from_rows(grid.as_rows()) == grid,
        grid.columns > 0 || grid.rows == 0 ==> Grid::from_columns(grid.as_columns()) == grid,
{
    let rows = grid.rows as int;
    let columns = grid.columns as int;
    lemma_area(rows, columns);
    lemma_row_major_is_storage(grid);
    let by_column_major = Grid::from_column_major(grid.rows, grid.columns, grid.column_major());
    assert forall|index: int| 0 <= index < grid.cells.len() implies by_column_major.cells[index]
        == grid.cells[index] by {
        lemma_index_of_row_major_coordinate(index, rows, columns);
        let row = index / columns;
        let column = index % columns;
        lemma_linear_index_in_range(row, column, rows, columns);
        lemma_column_major_coordinate_of_position(row, column, rows);
    }
    assert(by_column_major.cells =~= grid.cells);
    if grid.rows > 0 || grid.columns == 0 {
        let by_rows = Grid::from_rows(grid.as_rows());
        assert(width(grid.as_rows()) == grid.columns) by {
            if grid.rows > 0 {
                assert(grid.as_rows()[0] == grid.row(0));
            }
        }
        assert forall|index: int| 0 <= index < grid.cells.len() implies by_rows.cells[index]
            == grid.cells[index] by {
            lemma_index_of_row_major_coordinate(index, rows, columns);
        }
        assert(by_rows.cells =~= grid.cells);
    }
    if grid.columns > 0 || grid.rows == 0 {
        let by_columns = Grid::from_columns(grid.as_columns());
        assert(width(grid.as_columns()) == grid.rows) by {
            if grid.columns > 0 {
                assert(grid.as_columns()[0] == grid.column(0));
            }
        }
        assert forall|index: int| 0 <= index < grid.cells.len() implies by_columns.cells[index]
            == grid.cells[index] by {
            lemma_index_of_row_major_coordinate(index, rows, columns);
        }
        assert(by_columns.cells =~= grid.cells);
    }
}

/// Building from rows is building in row major order from the rows laid
/// end to end.
pub proof fn lemma_from_rows_is_from_row_major<T>(nested: Seq<Seq<T>>)
    requires
        rectangular(nested),
    ensures
        Grid::from_rows(nested) == Grid::from_row_major(
            nested.len(),
            width(nested),
            nested.flatten(),
        ),
{
    lemma_flatten_uniform(nested, width(nested));
    assert(Grid::from_rows(nested).cells =~= nested.flatten());
}

/// Index mapping, row major: the linear accessor at `row * columns + column`
/// finds the cell that the coordinate accessor finds at `(row, column)`.
pub proof fn lemma_row_major_index_is_coordinate<T>(grid: Grid<T>, row: int, column: int)
    requires
        grid.wf(),
        grid.contains(row, column),
    ensures
        grid.get_row_major(linear_index(row, column, grid.columns as int)) == grid.get(row, column),
        grid.get(row, column) is Some,
{
    lemma_linear_index_in_range(row, column, grid.rows as int, grid.columns as int);
}

/// Index mapping, column major: the linear accessor at an index below
/// `rows * columns` finds the cell that the coordinate accessor finds at
/// `(index % rows, index / rows)`, which is the cell at that index of the
/// column-major order.
pub proof fn lemma_column_major_index_is_coordinate<T>(grid: Grid<T>, index: int)
    requires
        grid.wf(),
        0 <= index < grid.rows * grid.columns,
    ensures
        grid.rows > 0,
        grid.get_column_major(index) == grid.get(
            index % (grid.rows as int),
            index / (grid.rows as int),
        ),
        grid.get_column_major(index) == Some(grid.column_major()[index]),
{
    lemma_position_of_column_major_coordinate(index, grid.rows as int, grid.columns as int);
    lemma_area(grid.rows as int, grid.columns as int);
}

/// The column-major accessor finds a cell exactly at the indices below
/// `rows * columns`.
pub proof fn lemma_column_major_index_range<T>(grid: Grid<T>, index: int)
    requires
        grid.wf(),
    ensures
        grid.get_column_major(index) is Some <==> 0 <= index < grid.rows * grid.columns,
{
    let rows = grid.rows as int;
    let columns = grid.columns as int;
    lemma_area(rows, columns);
    if 0 <= index < rows * columns {
        lemma_position_of_column_major_coordinate(index, rows, columns);
    } else if rows > 0 {
        let row = index % rows;
        let column = index / rows;
        if grid.contains(row, column) {
            lemma_linear_index_in_range(row, column, rows, columns);
            vstd::arithmetic::div_mod::lemma_fundamental_div_mod(index, rows);
            assert(rows * column == column * rows) by (nonlinear_arith);
        }
    }
}

/// Dimension invariant: replacing a cell, by coordinates or by either
/// linear index, in bounds or not, changes neither dimension and leaves
/// `rows * columns` cells.
pub proof fn lemma_set_keeps_dimensions<T>(grid: Grid<T>, row: int, column: int, index: int, value: T)
    requires
        grid.wf(),
    ensures
        grid.set(row, column, value).wf(),
        grid.set(row, column, value).rows == grid.rows,
        grid.set(row, column, value).columns == grid.columns,
        grid.set(row, column, value).row_major().len() == grid.rows * grid.columns,
        grid.set_row_major(index, value).wf(),
        grid.set_row_major(index, value).rows == grid.rows,
        grid.set_row_major(index, value).columns == grid.columns,
        grid.set_column_major(index, value).wf(),
        grid.set_column_major(index, value).rows == grid.rows,
        grid.set_column_major(index, value).columns == grid.columns,
{
    let rows = grid.rows as int;
    let columns = grid.columns as int;
    if grid.contains(row, column) {
        lemma_linear_index_in_range(row, column, rows, columns);
    }
    if rows > 0 && grid.contains(index % rows, index / rows) {
        lemma_linear_index_in_range(index % rows, index / rows, rows, columns);
    }
}

/// Replacing the cell at `(row, column)` is seen by reading that cell and
/// by no other read.
pub proof fn lemma_set_then_get<T>(
    grid: Grid<T>,
    row: int,
    column: int,
    value: T,
    other_row: int,
    other_column: int,
)
    requires
        grid.wf(),
        grid.contains(row, column),
    ensures
        grid.set(row, column, value).get(row, column) == Some(value),
        (other_row, other_column) != (row, column) ==> grid.set(row, column, value).get(
            other_row,
            other_column,
        ) == grid.get(other_row, other_column),
{
    let columns = grid.columns as int;
    lemma_linear_index_in_range(row, column, grid.rows as int, columns);
    if grid.contains(other_row, other_column) {
        lemma_linear_index_in_range(other_row, other_column, grid.rows as int, columns);
        lemma_row_major_coordinate_of_index(row, column, columns);
        lemma_row_major_coordinate_of_index(other_row, other_column, columns);
    }
}

/// Iteration coverage of the elements: each order holds `rows * columns`
/// elements, and the cell at `(row, column)` stands at offset
/// `row * columns + column` of the row-major order and at position
/// `column * rows + row` of the column-major order.
pub proof fn lemma_orders_hold_every_cell<T>(grid: Grid<T>, row: int, column: int)
    requires
        grid.wf(),
        grid.contains(row, column),
    ensures
        grid.row_major().len() == grid.rows * grid.columns,
        grid.column_major().len() == grid.rows * grid.columns,
        grid.row_major()[linear_index(row, column, grid.columns as int)] == grid.at(row, column),
        grid.column_major()[column_major_position(row, column, grid.rows as int)] == grid.at(
            row,
            column,
        ),
{
    let rows = grid.rows as int;
    let columns = grid.columns as int;
    lemma_linear_index_in_range(row, column, rows, columns);
    lemma_row_major_coordinate_of_index(row, column, columns);
    lemma_column_major_coordinate_of_position(row, column, rows);
}

/// Iteration coverage: both traversals visit `rows * columns` coordinates,
/// neither visits a coordinate twice, and both visit exactly the
/// coordinates of the grid. Row-major traversal reaches `(row, column)` at
/// step `row * columns + column`, column-major traversal at step
/// `column * rows + row`.
pub proof fn lemma_traversals_cover(rows: nat, columns: nat)
    ensures
        row_major_indices(rows as int, columns as int).len() == rows * columns,
        column_major_indices(rows as int, columns as int).len() == rows * columns,
        row_major_indices(rows as int, columns as int).no_duplicates(),
        column_major_indices(rows as int, columns as int).no_duplicates(),
        row_major_indices(rows as int, columns as int).to_set() == Set::new(
            |pair: (int, int)| in_bounds(pair.0, pair.1, rows as int, columns as int),
        ),
        column_major_indices(rows as int, columns as int).to_set() == row_major_indices(
            rows as int,
            columns as int,
        ).to_set(),
        forall|row: int, column: int|
            in_bounds(row, column, rows as int, columns as int) ==> row_major_indices(
                rows as int,
                columns as int,
            )[#[trigger] linear_index(row, column, columns as int)] == (row, column),
        forall|row: int, column: int|
            in_bounds(row, column, rows as int, columns as int) ==> column_major_indices(
                rows as int,
                columns as int,
            )[#[trigger] column_major_position(row, column, rows as int)] == (row, column),
{
    let r = rows as int;
    let c = columns as int;
    let by_rows = row_major_indices(r, c);
    let by_columns = column_major_indices(r, c);
    let all = Set::new(|pair: (int, int)| in_bounds(pair.0, pair.1, r, c));
    lemma_area(r, c);
    assert forall|i: int, j: int| 0 <= i < by_rows.len() && 0 <= j < by_rows.len() && i != j implies by_rows[i]
        != by_rows[j] by {
        lemma_join(i, r, c);
        lemma_join(j, r, c);
    }
    assert forall|i: int, j: int|
        0 <= i < by_columns.len() && 0 <= j < by_columns.len() && i != j implies by_columns[i]
        != by_columns[j] by {
        lemma_join(i, c, r);
        lemma_join(j, c, r);
    }
    assert forall|row: int, column: int| in_bounds(row, column, r, c) implies by_rows[
    #[trigger] linear_index(row, column, c)] == (row, column) by {
        lemma_linear_index_in_range(row, column, r, c);
        lemma_row_major_coordinate_of_index(row, column, c);
    }
    assert forall|row: int, column: int| in_bounds(row, column, r, c) implies by_columns[
    #[trigger] column_major_position(row, column, r)] == (row, column) by {
        lemma_linear_index_in_range(row, column, r, c);
        lemma_column_major_coordinate_of_position(row, column, r);
    }
    assert forall|pair: (int, int)| by_rows.to_set().contains(pair) <==> all.contains(pair) by {
        if by_rows.to_set().contains(pair) {
            let i = choose|i: int| 0 <= i < by_rows.len() && by_rows[i] == pair;
            lemma_index_of_row_major_coordinate(i, r, c);
        }
        if all.contains(pair) {
            lemma_linear_index_in_range(pair.0, pair.1, r, c);
            assert(by_rows[linear_index(pair.0, pair.1, c)] == pair);
        }
    }
    assert forall|pair: (int, int)| by_columns.to_set().contains(pair) <==> all.contains(pair) by {
        if by_columns.to_set().contains(pair) {
            let i = choose|i: int| 0 <= i < by_columns.len() && by_columns[i] == pair;
            lemma_position_of_column_major_coordinate(i, r, c);
        }
        if all.contains(pair) {
            lemma_linear_index_in_range(pair.0, pair.1, r, c);
            assert(by_columns[column_major_position(pair.0, pair.1, r)] == pair);
        }
    }
    assert(by_rows.to_set() =~= all);
    assert(by_columns.to_set() =~= all);
}

} // verus!
