//! The mathematical model of a two-dimensional array.
//!
//! A [`Grid`] is what an array *is*: its two dimensions and its cells in
//! row-major order. Every contract of the executable type is stated over
//! this model, and so are the laws that relate its operations.

use crate::layout::column_major_coordinate;
use crate::layout::column_major_position;
use crate::layout::in_bounds;
use crate::layout::linear_index;
use crate::layout::row_major_coordinate;
use vstd::prelude::*;

verus! {

/// Dimensions and cells of a two-dimensional array. The cell at
/// `(row, column)` is `cells[row * columns + column]`.
#[verifier::ext_equal]
pub struct Grid<T> {
    pub rows: nat,
    pub columns: nat,
    pub cells: Seq<T>,
}

/// Length of the first sequence of `nested`, or zero when there is none.
pub open spec fn width<T>(nested: Seq<Seq<T>>) -> nat {
    if nested.len() == 0 {
        0
    } else {
        nested[0].len()
    }
}

/// Whether all sequences of `nested` have the same length.
pub open spec fn rectangular<T>(nested: Seq<Seq<T>>) -> bool {
    forall|i: int| 0 <= i < nested.len() ==> (#[trigger] nested[i]).len() == width(nested)
}

/// The views of the vectors of `nested`, in order.
pub open spec fn nested_view<T>(nested: Seq<Vec<T>>) -> Seq<Seq<T>> {
    Seq::new(nested.len(), |i: int| nested[i]@)
}

/// What `reference` points to, if it points to anything.
pub open spec fn referent<T>(reference: Option<&T>) -> Option<T> {
    match reference {
        Some(value) => Some(*value),
        None => None,
    }
}

/// Whether `copy` holds, position by position, clones of the items of `source`.
pub open spec fn copies<T: Clone>(source: Seq<T>, copy: Seq<T>) -> bool {
    &&& copy.len() == source.len()
    &&& forall|i: int| 0 <= i < source.len() ==> cloned(source[i], #[trigger] copy[i])
}

/// Whether `copy` holds, sequence by sequence, clones of the items of `source`.
pub open spec fn nested_copies<T: Clone>(source: Seq<Seq<T>>, copy: Seq<Seq<T>>) -> bool {
    &&& copy.len() == source.len()
    &&& forall|i: int| 0 <= i < source.len() ==> copies(source[i], #[trigger] copy[i])
}

/// Whether a clone of a `T` always equals the value it was cloned from.
pub open spec fn clone_is_exact<T: Clone>() -> bool {
    forall|source: T, copy: T| cloned(source, copy) ==> source == copy
}

impl<T> Grid<T> {
    /// The storage holds exactly `rows * columns` cells.
    pub open spec fn wf(self) -> bool {
        self.cells.len() == self.rows * self.columns
    }

    /// Whether `(row, column)` names a cell of this grid.
    pub open spec fn contains(self, row: int, column: int) -> bool {
        in_bounds(row, column, self.rows as int, self.columns as int)
    }

    /// The cell at `(row, column)`.
    pub open spec fn at(self, row: int, column: int) -> T
        recommends
            self.contains(row, column),
    {
        self.cells[linear_index(row, column, self.columns as int)]
    }

    /// The cell at `(row, column)`, if there is one.
    pub open spec fn get(self, row: int, column: int) -> Option<T> {
        if self.contains(row, column) {
            Some(self.at(row, column))
        } else {
            None
        }
    }

    /// The cell at offset `index` of the row-major order, if there is one.
    pub open spec fn get_row_major(self, index: int) -> Option<T> {
        if 0 <= index < self.cells.len() {
            Some(self.cells[index])
        } else {
            None
        }
    }

    /// The cell at position `index` of the column-major order, if there is
    /// one. A grid without rows has no such cell.
    pub open spec fn get_column_major(self, index: int) -> Option<T> {
        if self.rows > 0 {
            let (row, column) = column_major_coordinate(index, self.rows as int);
            self.get(row, column)
        } else {
            None
        }
    }

    /// This grid with the cell at `(row, column)` replaced by `value`; the
    /// grid itself when there is no such cell.
    pub open spec fn set(self, row: int, column: int, value: T) -> Grid<T> {
        if self.contains(row, column) {
            Grid {
                rows: self.rows,
                columns: self.columns,
                cells: self.cells.update(linear_index(row, column, self.columns as int), value),
            }
        } else {
            self
        }
    }

    /// This grid with the cell at row-major offset `index` replaced.
    pub open spec fn set_row_major(self, index: int, value: T) -> Grid<T> {
        if 0 <= index < self.cells.len() {
            Grid { rows: self.rows, columns: self.columns, cells: self.cells.update(index, value) }
        } else {
            self
        }
    }

    /// This grid with the cell at column-major position `index` replaced.
    pub open spec fn set_column_major(self, index: int, value: T) -> Grid<T> {
        if self.rows > 0 {
            let (row, column) = column_major_coordinate(index, self.rows as int);
            self.set(row, column, value)
        } else {
            self
        }
    }

    /// The cells of row `row`, left to right.
    pub open spec fn row(self, row: int) -> Seq<T> {
        Seq::new(self.columns, |column: int| self.at(row, column))
    }

    /// The cells of column `column`, top to bottom.
    pub open spec fn column(self, column: int) -> Seq<T> {
        Seq::new(self.rows, |row: int| self.at(row, column))
    }

    /// All rows, top to bottom.
    pub open spec fn as_rows(self) -> Seq<Seq<T>> {
        Seq::new(self.rows, |row: int| self.row(row))
    }

    /// All columns, left to right.
    pub open spec fn as_columns(self) -> Seq<Seq<T>> {
        Seq::new(self.columns, |column: int| self.column(column))
    }

    /// All cells, row by row.
    pub open spec fn row_major(self) -> Seq<T> {
        Seq::new(
            self.rows * self.columns,
            |index: int|
                {
                    let (row, column) = row_major_coordinate(index, self.columns as int);
                    self.at(row, column)
                },
        )
    }

    /// All cells, column by column.
    pub open spec fn column_major(self) -> Seq<T> {
        Seq::new(
            self.rows * self.columns,
            |index: int|
                {
                    let (row, column) = column_major_coordinate(index, self.rows as int);
                    self.at(row, column)
                },
        )
    }

    /// The grid of the given dimensions that holds `value` in every cell.
    pub open spec fn filled(rows: nat, columns: nat, value: T) -> Grid<T> {
        Grid { rows, columns, cells: Seq::new(rows * columns, |index: int| value) }
    }

    /// The grid whose rows are `nested`. Without rows it has no columns
    /// either.
    pub open spec fn from_rows(nested: Seq<Seq<T>>) -> Grid<T>
        recommends
            rectangular(nested),
    {
        let columns = width(nested);
        Grid {
            rows: nested.len(),
            columns,
            cells: Seq::new(
                nested.len() * columns,
                |index: int|
                    {
                        let (row, column) = row_major_coordinate(index, columns as int);
                        nested[row][column]
                    },
            ),
        }
    }

    /// The grid whose columns are `nested`. Without columns it has no rows
    /// either.
    pub open spec fn from_columns(nested: Seq<Seq<T>>) -> Grid<T>
        recommends
            rectangular(nested),
    {
        let rows = width(nested);
        Grid {
            rows,
            columns: nested.len(),
            cells: Seq::new(
                rows * nested.len(),
                |index: int|
                    {
                        let (row, column) = row_major_coordinate(index, nested.len() as int);
                        nested[column][row]
                    },
            ),
        }
    }

    /// The grid of the given dimensions whose cells, row by row, are `flat`.
    pub open spec fn from_row_major(rows: nat, columns: nat, flat: Seq<T>) -> Grid<T>
        recommends
            flat.len() == rows * columns,
    {
        Grid { rows, columns, cells: flat }
    }

    /// The grid of the given dimensions whose cells, column by column, are
    /// `flat`.
    pub open spec fn from_column_major(rows: nat, columns: nat, flat: Seq<T>) -> Grid<T>
        recommends
            flat.len() == rows * columns,
    {
        Grid {
            rows,
            columns,
            cells: Seq::new(
                rows * columns,
                |index: int|
                    {
                        let (row, column) = row_major_coordinate(index, columns as int);
                        flat[column_major_position(row, column, rows as int)]
                    },
            ),
        }
    }
}

/// Concatenating `nested`, all of whose sequences have length `stride`,
/// puts the item `nested[row][column]` at offset `row * stride + column`.
pub proof fn lemma_flatten_uniform<T>(nested: Seq<Seq<T>>, stride: nat)
    requires
        forall|i: int| 0 <= i < nested.len() ==> (#[trigger] nested[i]).len() == stride,
    ensures
        nested.flatten().len() == nested.len() * stride,
        forall|index: int|
            0 <= index < nested.len() * stride ==> (#[trigger] nested.flatten()[index])
                == nested[index / (stride as int)][index % (stride as int)],
    decreases nested.len(),
{
    if nested.len() == 0 {
        assert(nested.len() * stride == 0) by (nonlinear_arith)
            requires
                nested.len() == 0,
        ;
    } else {
        let front = nested.drop_last();
        let last = nested.last();
        lemma_flatten_uniform(front, stride);
        assert(nested =~= front.push(last));
        front.lemma_flatten_push(last);
        crate::layout::lemma_stripe(front.len() as int, nested.len() as int, stride as int);
        assert forall|index: int| 0 <= index < nested.len() * stride implies (
        #[trigger] nested.flatten()[index]) == nested[index / (stride as int)][index % (
        stride as int)] by {
            crate::layout::lemma_join(index, nested.len() as int, stride as int);
            if index < front.len() * stride {
                crate::layout::lemma_join(index, front.len() as int, stride as int);
                assert(nested.flatten()[index] == front.flatten()[index]);
            } else {
                let offset = index - front.len() * stride;
                crate::layout::lemma_split(front.len() as int, offset, stride as int);
                assert(nested.flatten()[index] == last[offset]);
            }
        }
    }
}

/// In a well-formed grid the row-major order is the storage order.
pub proof fn lemma_row_major_is_storage<T>(grid: Grid<T>)
    requires
        grid.wf(),
    ensures
        grid.row_major() == grid.cells,
{
    assert forall|index: int| 0 <= index < grid.cells.len() implies grid.row_major()[index]
        == grid.cells[index] by {
        crate::layout::lemma_index_of_row_major_coordinate(
            index,
            grid.rows as int,
            grid.columns as int,
        );
    }
    assert(grid.row_major() =~= grid.cells);
}

/// In a well-formed grid a row is one contiguous stripe of the storage.
pub proof fn lemma_row_is_stripe<T>(grid: Grid<T>, row: int)
    requires
        grid.wf(),
        0 <= row < grid.rows,
    ensures
        0 <= row * grid.columns,
        row * grid.columns + grid.columns <= grid.cells.len(),
        grid.row(row) == grid.cells.subrange(row * grid.columns, row * grid.columns + grid.columns),
{
    crate::layout::lemma_stripe(row, grid.rows as int, grid.columns as int);
    assert(grid.row(row) =~= grid.cells.subrange(
        row * grid.columns,
        row * grid.columns + grid.columns,
    ));
}

impl<T: Clone> Grid<T> {
    /// Whether this grid has the dimensions of `source` and holds, cell by
    /// cell, clones of its cells.
    pub open spec fn is_copy_of(self, source: Grid<T>) -> bool {
        &&& self.rows == source.rows
        &&& self.columns == source.columns
        &&& copies(source.cells, self.cells)
    }
}

} // verus!
