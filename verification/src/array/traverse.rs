//! Walking an array and collecting it into vectors.

use super::Array2D;
use crate::error::Error;
use crate::layout::column_major_coordinate;
use crate::layout::column_major_indices;
use crate::layout::coordinates;
use crate::layout::lemma_area;
use crate::layout::lemma_index_of_row_major_coordinate;
use crate::layout::lemma_position_of_column_major_coordinate;
use crate::layout::lemma_split;
use crate::layout::lemma_stripe;
use crate::layout::row_major_coordinate;
use crate::layout::row_major_indices;
use crate::model::copies;
use crate::model::lemma_row_is_stripe;
use crate::model::lemma_row_major_is_storage;
use crate::model::nested_copies;
use crate::model::nested_view;
use vstd::prelude::*;
use vstd::std_specs::iter::IteratorSpec;

verus! {

impl<T> Array2D<T> {
    /// Returns an iterator over references to all elements in row major
    /// order.
    pub fn elements_row_major_iter(&self) -> (iter: std::slice::Iter<'_, T>)
        ensures
            iter.remaining().len() == self@.rows * self@.columns,
            iter.remaining().unref() == self@.row_major(),
    {
        proof {
            use_type_invariant(self);
            lemma_row_major_is_storage(self@);
        }
        self.array.iter()
    }

    /// Returns an iterator over references to all elements in column major
    /// order.
    pub fn elements_column_major_iter(&self) -> (iter: std::vec::IntoIter<&T>)
        ensures
            iter.remaining().len() == self@.rows * self@.columns,
            iter.remaining().unref() == self@.column_major(),
    {
        self.column_major_cells().into_iter()
    }

    /// References to all elements in column major order.
    #[verifier::loop_isolation(false)]
    fn column_major_cells(&self) -> (result: Vec<&T>)
        ensures
            result@.len() == self@.rows * self@.columns,
            result@.unref() == self@.column_major(),
    {
        proof {
            use_type_invariant(self);
        }
        let indices = indices_column_major(self.num_rows, self.num_columns);
        proof {
            lemma_area(self@.rows as int, self@.columns as int);
            assert(coordinates(indices@).len() == indices@.len());
        }
        let mut result: Vec<&T> = Vec::new();
        let mut step: usize = 0;
        while step < indices.len()
            invariant
                step <= indices@.len(),
                result@.len() == step,
                forall|done: int|
                    0 <= done < step ==> *(#[trigger] result@[done]) == self@.column_major()[done],
            decreases indices@.len() - step,
        {
            let (row, column) = indices[step];
            proof {
                assert(coordinates(indices@)[step as int] == (row as int, column as int));
                lemma_position_of_column_major_coordinate(
                    step as int,
                    self@.rows as int,
                    self@.columns as int,
                );
            }
            result.push(&self[(row, column)]);
            step += 1;
        }
        proof {
            assert(result@.unref() =~= self@.column_major());
        }
        result
    }

    /// Returns an iterator over references to all elements in the given
    /// row. Returns an error if the index is out of bounds.
    pub fn row_iter(&self, row_index: usize) -> (result: Result<std::slice::Iter<'_, T>, Error>)
        ensures
            (match result {
                Ok(iter) => {
                    &&& row_index < self@.rows
                    &&& iter.remaining().len() == self@.columns
                    &&& iter.remaining().unref() == self@.row(row_index as int)
                },
                Err(error) => {
                    &&& row_index >= self@.rows
                    &&& error == Error::IndicesOutOfBounds(row_index, 0)
                },
            }),
    {
        if row_index >= self.num_rows {
            return Err(Error::IndicesOutOfBounds(row_index, 0));
        }
        Ok(self.row_slice(row_index).iter())
    }

    /// Returns an iterator over references to all elements in the given
    /// column. Returns an error if the index is out of bounds.
    pub fn column_iter(&self, column_index: usize) -> (result: Result<
        std::vec::IntoIter<&T>,
        Error,
    >)
        ensures
            (match result {
                Ok(iter) => {
                    &&& column_index < self@.columns
                    &&& iter.remaining().len() == self@.rows
                    &&& iter.remaining().unref() == self@.column(column_index as int)
                },
                Err(error) => {
                    &&& column_index >= self@.columns
                    &&& error == Error::IndicesOutOfBounds(0, column_index)
                },
            }),
    {
        if column_index >= self.num_columns {
            return Err(Error::IndicesOutOfBounds(0, column_index));
        }
        Ok(self.column_cells(column_index).into_iter())
    }

    /// Returns an iterator over all rows. Each item is itself another
    /// iterator over references to the elements in that row.
    pub fn rows_iter(&self) -> (iter: std::vec::IntoIter<std::slice::Iter<'_, T>>)
        ensures
            iter.remaining().len() == self@.rows,
            forall|row: int|
                0 <= row < self@.rows ==> (#[trigger] iter.remaining()[row]).remaining().unref()
                    == self@.row(row),
    {
        let mut rows: Vec<std::slice::Iter<'_, T>> = Vec::new();
        let mut row_index: usize = 0;
        while row_index < self.num_rows()
            invariant
                row_index <= self@.rows,
                rows@.len() == row_index,
                forall|row: int|
                    0 <= row < row_index ==> (#[trigger] rows@[row]).remaining().unref()
                        == self@.row(row),
            decreases self@.rows - row_index,
        {
            rows.push(self.row_slice(row_index).iter());
            row_index += 1;
        }
        rows.into_iter()
    }

    /// Returns an iterator over all columns. Each item is itself another
    /// iterator over references to the elements in that column.
    pub fn columns_iter(&self) -> (iter: std::vec::IntoIter<std::vec::IntoIter<&T>>)
        ensures
            iter.remaining().len() == self@.columns,
            forall|column: int|
                0 <= column < self@.columns ==> (
                #[trigger] iter.remaining()[column]).remaining().unref() == self@.column(column),
    {
        let mut columns: Vec<std::vec::IntoIter<&T>> = Vec::new();
        let mut column_index: usize = 0;
        while column_index < self.num_columns
            invariant
                column_index <= self@.columns,
                columns@.len() == column_index,
                forall|column: int|
                    0 <= column < column_index ==> (#[trigger] columns@[column]).remaining().unref()
                        == self@.column(column),
            decreases self@.columns - column_index,
        {
            columns.push(self.column_cells(column_index).into_iter());
            column_index += 1;
        }
        columns.into_iter()
    }

    /// Collects the array into a vector of rows, each of which contains a
    /// vector of elements.
    pub fn as_rows(&self) -> (result: Vec<Vec<T>>) where T: Clone
        ensures
            nested_copies(self@.as_rows(), nested_view(result@)),
    {
        let mut result: Vec<Vec<T>> = Vec::new();
        let mut row_index: usize = 0;
        while row_index < self.num_rows
            invariant
                row_index <= self@.rows,
                result@.len() == row_index,
                forall|row: int|
                    0 <= row < row_index ==> copies(self@.row(row), (#[trigger] result@[row])@),
            decreases self@.rows - row_index,
        {
            let mut row: Vec<T> = Vec::new();
            row.extend_from_slice(self.row_slice(row_index));
            result.push(row);
            row_index += 1;
        }
        proof {
            assert forall|row: int| 0 <= row < self@.rows implies copies(
                self@.as_rows()[row],
                #[trigger] nested_view(result@)[row],
            ) by {
                assert(copies(self@.row(row), result@[row]@));
            }
        }
        result
    }

    /// Collects the array into a vector of columns, each of which contains
    /// a vector of elements.
    pub fn as_columns(&self) -> (result: Vec<Vec<T>>) where T: Clone
        ensures
            nested_copies(self@.as_columns(), nested_view(result@)),
    {
        let mut result: Vec<Vec<T>> = Vec::new();
        let mut column_index: usize = 0;
        while column_index < self.num_columns
            invariant
                column_index <= self@.columns,
                result@.len() == column_index,
                forall|column: int|
                    0 <= column < column_index ==> copies(
                        self@.column(column),
                        (#[trigger] result@[column])@,
                    ),
            decreases self@.columns - column_index,
        {
            result.push(clone_all(&self.column_cells(column_index)));
            column_index += 1;
        }
        proof {
            assert forall|column: int| 0 <= column < self@.columns implies copies(
                self@.as_columns()[column],
                #[trigger] nested_view(result@)[column],
            ) by {
                assert(copies(self@.column(column), result@[column]@));
            }
        }
        result
    }

    /// Collects the array into a vector of elements in row major order.
    pub fn as_row_major(&self) -> (result: Vec<T>) where T: Clone
        ensures
            result@.len() == self@.rows * self@.columns,
            copies(self@.row_major(), result@),
    {
        proof {
            use_type_invariant(self);
            lemma_row_major_is_storage(self@);
        }
        self.array.clone()
    }

    /// Collects the array into a vector of elements in column major order.
    pub fn as_column_major(&self) -> (result: Vec<T>) where T: Clone
        ensures
            result@.len() == self@.rows * self@.columns,
            copies(self@.column_major(), result@),
    {
        clone_all(&self.column_major_cells())
    }

    /// Returns the indices of the array in row major order. Each index is a
    /// pair of a row and a column.
    pub fn indices_row_major(&self) -> (iter: std::vec::IntoIter<(usize, usize)>)
        ensures
            coordinates(iter.remaining()) == row_major_indices(
                self@.rows as int,
                self@.columns as int,
            ),
    {
        indices_row_major(self.num_rows, self.num_columns).into_iter()
    }

    /// Returns the indices of the array in column major order. Each index
    /// is a pair of a row and a column.
    pub fn indices_column_major(&self) -> (iter: std::vec::IntoIter<(usize, usize)>)
        ensures
            coordinates(iter.remaining()) == column_major_indices(
                self@.rows as int,
                self@.columns as int,
            ),
    {
        indices_column_major(self.num_rows, self.num_columns).into_iter()
    }

    /// Iterates through the array in row major order along with the
    /// corresponding indices.
    pub fn enumerate_row_major(&self) -> (iter: std::vec::IntoIter<((usize, usize), &T)>)
        ensures
            iter.remaining().len() == self@.rows * self@.columns,
            (forall|step: int|
                0 <= step < iter.remaining().len() ==> {
                    let ((row, column), cell) = #[trigger] iter.remaining()[step];
                    &&& (row as int, column as int) == row_major_coordinate(
                        step,
                        self@.columns as int,
                    )
                    &&& self@.contains(row as int, column as int)
                    &&& *cell == self@.at(row as int, column as int)
                }),
    {
        proof {
            use_type_invariant(self);
            lemma_area(self@.rows as int, self@.columns as int);
        }
        let indices = indices_row_major(self.num_rows, self.num_columns);
        proof {
            assert(coordinates(indices@).len() == indices@.len());
            assert forall|step: int| 0 <= step < indices@.len() implies {
                let (row, column) = #[trigger] indices@[step];
                &&& (row as int, column as int) == row_major_coordinate(step, self@.columns as int)
                &&& self@.contains(row as int, column as int)
            } by {
                assert(coordinates(indices@)[step] == (
                    indices@[step].0 as int,
                    indices@[step].1 as int,
                ));
                lemma_index_of_row_major_coordinate(step, self@.rows as int, self@.columns as int);
            }
        }
        let pairs = self.with_cells(indices);
        proof {
            assert forall|step: int| 0 <= step < pairs@.len() implies {
                let ((row, column), cell) = #[trigger] pairs@[step];
                &&& (row as int, column as int) == row_major_coordinate(step, self@.columns as int)
                &&& self@.contains(row as int, column as int)
                &&& *cell == self@.at(row as int, column as int)
            } by {
                assert(pairs@[step].0 == indices@[step]);
            }
        }
        pairs.into_iter()
    }

    /// Iterates through the array in column major order along with the
    /// corresponding indices.
    pub fn enumerate_column_major(&self) -> (iter: std::vec::IntoIter<((usize, usize), &T)>)
        ensures
            iter.remaining().len() == self@.rows * self@.columns,
            (forall|step: int|
                0 <= step < iter.remaining().len() ==> {
                    let ((row, column), cell) = #[trigger] iter.remaining()[step];
                    &&& (row as int, column as int) == column_major_coordinate(
                        step,
                        self@.rows as int,
                    )
                    &&& self@.contains(row as int, column as int)
                    &&& *cell == self@.at(row as int, column as int)
                }),
    {
        proof {
            use_type_invariant(self);
            lemma_area(self@.rows as int, self@.columns as int);
        }
        let indices = indices_column_major(self.num_rows, self.num_columns);
        proof {
            assert(coordinates(indices@).len() == indices@.len());
            assert forall|step: int| 0 <= step < indices@.len() implies {
                let (row, column) = #[trigger] indices@[step];
                &&& (row as int, column as int) == column_major_coordinate(step, self@.rows as int)
                &&& self@.contains(row as int, column as int)
            } by {
                assert(coordinates(indices@)[step] == (
                    indices@[step].0 as int,
                    indices@[step].1 as int,
                ));
                lemma_position_of_column_major_coordinate(step, self@.rows as int, self@.columns as int);
            }
        }
        let pairs = self.with_cells(indices);
        proof {
            assert forall|step: int| 0 <= step < pairs@.len() implies {
                let ((row, column), cell) = #[trigger] pairs@[step];
                &&& (row as int, column as int) == column_major_coordinate(step, self@.rows as int)
                &&& self@.contains(row as int, column as int)
                &&& *cell == self@.at(row as int, column as int)
            } by {
                assert(pairs@[step].0 == indices@[step]);
            }
        }
        pairs.into_iter()
    }

    /// Each of the given indices together with a reference to the element
    /// that it names.
    fn with_cells(&self, indices: Vec<(usize, usize)>) -> (result: Vec<((usize, usize), &T)>)
        requires
            forall|step: int|
                0 <= step < indices@.len() ==> self@.contains(
                    (#[trigger] indices@[step]).0 as int,
                    indices@[step].1 as int,
                ),
        ensures
            result@.len() == indices@.len(),
            forall|step: int|
                0 <= step < indices@.len() ==> (#[trigger] result@[step]).0 == indices@[step]
                    && *result@[step].1 == self@.at(
                    indices@[step].0 as int,
                    indices@[step].1 as int,
                ),
    {
        let mut result: Vec<((usize, usize), &T)> = Vec::new();
        let mut step: usize = 0;
        while step < indices.len()
            invariant
                forall|later: int|
                    0 <= later < indices@.len() ==> self@.contains(
                        (#[trigger] indices@[later]).0 as int,
                        indices@[later].1 as int,
                    ),
                step <= indices@.len(),
                result@.len() == step,
                forall|done: int|
                    0 <= done < step ==> (#[trigger] result@[done]).0 == indices@[done]
                        && *result@[done].1 == self@.at(
                        indices@[done].0 as int,
                        indices@[done].1 as int,
                    ),
            decreases indices@.len() - step,
        {
            let (row, column) = indices[step];
            result.push(((row, column), &self[(row, column)]));
            step += 1;
        }
        result
    }

    /// References to the elements of the given column, top to bottom.
    fn column_cells(&self, column_index: usize) -> (cells: Vec<&T>)
        requires
            column_index < self@.columns,
        ensures
            cells@.len() == self@.rows,
            cells@.unref() == self@.column(column_index as int),
    {
        let mut cells: Vec<&T> = Vec::new();
        let mut row_index: usize = 0;
        while row_index < self.column_len()
            invariant
                column_index < self@.columns,
                row_index <= self@.rows,
                cells@.len() == row_index,
                forall|row: int|
                    0 <= row < row_index ==> *(#[trigger] cells@[row]) == self@.at(
                        row,
                        column_index as int,
                    ),
            decreases self@.rows - row_index,
        {
            cells.push(&self[(row_index, column_index)]);
            row_index += 1;
        }
        proof {
            assert(cells@.unref() =~= self@.column(column_index as int));
        }
        cells
    }

    /// The elements of the given row as one slice of the storage.
    fn row_slice(&self, row_index: usize) -> (slice: &[T])
        requires
            row_index < self@.rows,
        ensures
            slice@ == self@.row(row_index as int),
    {
        proof {
            use_type_invariant(self);
            lemma_row_is_stripe(self@, row_index as int);
            assert(self.array@.len() == self.array.len());
        }
        let start = row_index * self.row_len();
        let end = start + self.row_len();
        vstd::slice::slice_subrange(self.array.as_slice(), start, end)
    }
}

/// All `(row, column)` pairs of a grid of the given size, the column varying
/// fastest.
fn indices_row_major(num_rows: usize, num_columns: usize) -> (result: Vec<(usize, usize)>)
    ensures
        coordinates(result@) == row_major_indices(num_rows as int, num_columns as int),
{
    let mut result: Vec<(usize, usize)> = Vec::new();
    let mut row: usize = 0;
    while row < num_rows
        invariant
            row <= num_rows,
            result@.len() == row * num_columns,
            forall|step: int|
                0 <= step < result@.len() ==> (
                (#[trigger] result@[step]).0 as int,
                result@[step].1 as int,
            ) == row_major_coordinate(step, num_columns as int),
        decreases num_rows - row,
    {
        let mut column: usize = 0;
        while column < num_columns
            invariant
                row < num_rows,
                column <= num_columns,
                result@.len() == row * num_columns + column,
                forall|step: int|
                    0 <= step < result@.len() ==> (
                    (#[trigger] result@[step]).0 as int,
                    result@[step].1 as int,
                ) == row_major_coordinate(step, num_columns as int),
            decreases num_columns - column,
        {
            proof {
                lemma_split(row as int, column as int, num_columns as int);
            }
            result.push((row, column));
            column += 1;
        }
        proof {
            lemma_stripe(row as int, num_rows as int, num_columns as int);
        }
        row += 1;
    }
    proof {
        assert(coordinates(result@) =~= row_major_indices(num_rows as int, num_columns as int));
    }
    result
}

/// All `(row, column)` pairs of a grid of the given size, the row varying
/// fastest.
fn indices_column_major(num_rows: usize, num_columns: usize) -> (result: Vec<(usize, usize)>)
    ensures
        coordinates(result@) == column_major_indices(num_rows as int, num_columns as int),
{
    let mut result: Vec<(usize, usize)> = Vec::new();
    let mut column: usize = 0;
    while column < num_columns
        invariant
            column <= num_columns,
            result@.len() == column * num_rows,
            forall|step: int|
                0 <= step < result@.len() ==> (
                (#[trigger] result@[step]).0 as int,
                result@[step].1 as int,
            ) == column_major_coordinate(step, num_rows as int),
        decreases num_columns - column,
    {
        let mut row: usize = 0;
        while row < num_rows
            invariant
                column < num_columns,
                row <= num_rows,
                result@.len() == column * num_rows + row,
                forall|step: int|
                    0 <= step < result@.len() ==> (
                    (#[trigger] result@[step]).0 as int,
                    result@[step].1 as int,
                ) == column_major_coordinate(step, num_rows as int),
            decreases num_rows - row,
        {
            proof {
                lemma_split(column as int, row as int, num_rows as int);
            }
            result.push((row, column));
            row += 1;
        }
        proof {
            lemma_stripe(column as int, num_columns as int, num_rows as int);
        }
        column += 1;
    }
    proof {
        lemma_area(num_rows as int, num_columns as int);
        assert(coordinates(result@) =~= column_major_indices(num_rows as int, num_columns as int));
    }
    result
}

/// Clones of what `cells` refers to, in order.
fn clone_all<T: Clone>(cells: &Vec<&T>) -> (result: Vec<T>)
    ensures
        copies(cells@.unref(), result@),
{
    let mut result: Vec<T> = Vec::new();
    let mut index: usize = 0;
    while index < cells.len()
        invariant
            index <= cells@.len(),
            result@.len() == index,
            forall|done: int|
                0 <= done < index ==> cloned(*cells@[done], #[trigger] result@[done]),
        decreases cells@.len() - index,
    {
        result.push(cells[index].clone());
        index += 1;
    }
    result
}

} // verus!
