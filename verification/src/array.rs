//! The executable two-dimensional array: its representation, its
//! dimensions and its element accessors.

mod construct;
mod traverse;

use crate::error::Error;
use crate::laws::lemma_column_major_index_range;
use crate::layout::lemma_linear_index_in_range;
use crate::layout::lemma_stripe;
use crate::model::Grid;
use crate::model::referent;
use vstd::pervasive::unreached;
use vstd::prelude::*;
use vstd::std_specs::cmp::PartialEqSpec;
use vstd::std_specs::cmp::PartialEqSpecImpl;

verus! {

/// A fixed sized two-dimensional array.
///
/// The cells live in one vector, row after row. The two dimensions never
/// change once the array is built, and the vector always holds exactly
/// `num_rows * num_columns` cells.
#[derive(Debug, Hash)]
pub struct Array2D<T> {
    array: Vec<T>,
    num_rows: usize,
    num_columns: usize,
}

impl<T> View for Array2D<T> {
    type V = Grid<T>;

    closed spec fn view(&self) -> Grid<T> {
        Grid {
            rows: self.num_rows as nat,
            columns: self.num_columns as nat,
            cells: self.array@,
        }
    }
}

impl<T> Array2D<T> {
    /// What holds of every array at all times: its model is well formed.
    #[verifier::type_invariant]
    pub open spec fn well_formed(&self) -> bool {
        self@.wf()
    }

    /// The number of rows.
    pub fn num_rows(&self) -> (count: usize)
        ensures
            count == self@.rows,
    {
        self.num_rows
    }

    /// The number of columns.
    pub fn num_columns(&self) -> (count: usize)
        ensures
            count == self@.columns,
    {
        self.num_columns
    }

    /// The total number of elements, i.e. the product of `num_rows` and
    /// `num_columns`.
    pub fn num_elements(&self) -> (count: usize)
        ensures
            count == self@.rows * self@.columns,
            count == self@.cells.len(),
    {
        proof {
            use_type_invariant(self);
            assert(self.array@.len() == self.array.len());
        }
        self.num_rows * self.num_columns
    }

    /// The number of elements in each row, i.e. the number of columns.
    pub fn row_len(&self) -> (count: usize)
        ensures
            count == self@.columns,
    {
        self.num_columns
    }

    /// The number of elements in each column, i.e. the number of rows.
    pub fn column_len(&self) -> (count: usize)
        ensures
            count == self@.rows,
    {
        self.num_rows
    }

    /// Returns a reference to the element at the given `row` and `column`
    /// if the index is in bounds, and `None` if it is not.
    pub fn get(&self, row: usize, column: usize) -> (result: Option<&T>)
        ensures
            referent(result) == self@.get(row as int, column as int),
    {
        match self.get_index(row, column) {
            Some(index) => Some(&self.array[index]),
            None => None,
        }
    }

    /// Returns a reference to the element at the given index in row major
    /// order, and `None` if the index is out of bounds.
    pub fn get_row_major(&self, index: usize) -> (result: Option<&T>)
        ensures
            result is Some <==> index < self@.rows * self@.columns,
            referent(result) == self@.get_row_major(index as int),
    {
        proof {
            use_type_invariant(self);
        }
        if index < self.array.len() {
            Some(&self.array[index])
        } else {
            None
        }
    }

    /// Returns a reference to the element at the given index in column
    /// major order, and `None` if the index is out of bounds. An array
    /// without rows has no element at any index.
    pub fn get_column_major(&self, index: usize) -> (result: Option<&T>)
        ensures
            result is Some <==> index < self@.rows * self@.columns,
            referent(result) == self@.get_column_major(index as int),
    {
        proof {
            use_type_invariant(self);
            lemma_column_major_index_range(self@, index as int);
        }
        if self.num_rows == 0 {
            return None;
        }
        let column = index / self.num_rows;
        let row = index % self.num_rows;
        self.get(row, column)
    }

    /// Returns a mutable reference to the element at the given `row` and
    /// `column` if the index is in bounds, and `None` if it is not. What is
    /// written through the reference replaces that element and no other.
    pub fn get_mut(&mut self, row: usize, column: usize) -> (result: Option<&mut T>)
        ensures
            (match result {
                Some(cell) => {
                    &&& old(self)@.contains(row as int, column as int)
                    &&& *cell == old(self)@.at(row as int, column as int)
                    &&& final(self)@ == old(self)@.set(row as int, column as int, *final(cell))
                },
                None => {
                    &&& !old(self)@.contains(row as int, column as int)
                    &&& final(self)@ == old(self)@
                },
            }),
    {
        proof {
            use_type_invariant(&*self);
        }
        match self.get_index(row, column) {
            Some(index) => Some(&mut self.array[index]),
            None => None,
        }
    }

    /// Returns a mutable reference to the element at the given index in row
    /// major order, and `None` if the index is out of bounds.
    pub fn get_mut_row_major(&mut self, index: usize) -> (result: Option<&mut T>)
        ensures
            result is Some <==> index < old(self)@.rows * old(self)@.columns,
            (match result {
                Some(cell) => {
                    &&& index < old(self)@.cells.len()
                    &&& *cell == old(self)@.cells[index as int]
                    &&& final(self)@ == old(self)@.set_row_major(index as int, *final(cell))
                },
                None => {
                    &&& index >= old(self)@.cells.len()
                    &&& final(self)@ == old(self)@
                },
            }),
    {
        proof {
            use_type_invariant(&*self);
        }
        if index < self.array.len() {
            Some(&mut self.array[index])
        } else {
            None
        }
    }

    /// Returns a mutable reference to the element at the given index in
    /// column major order, and `None` if the index is out of bounds.
    pub fn get_mut_column_major(&mut self, index: usize) -> (result: Option<&mut T>)
        ensures
            result is Some <==> index < old(self)@.rows * old(self)@.columns,
            (match result {
                Some(cell) => {
                    &&& old(self)@.get_column_major(index as int) == Some(*cell)
                    &&& final(self)@ == old(self)@.set_column_major(index as int, *final(cell))
                },
                None => {
                    &&& old(self)@.get_column_major(index as int) is None
                    &&& final(self)@ == old(self)@
                },
            }),
    {
        proof {
            use_type_invariant(&*self);
            lemma_column_major_index_range(self@, index as int);
        }
        if self.num_rows == 0 {
            return None;
        }
        let column = index / self.num_rows;
        let row = index % self.num_rows;
        self.get_mut(row, column)
    }

    /// Changes the element at given `row` and `column` to `element`.
    /// Out of bounds nothing changes and the indices come back in the error.
    pub fn set(&mut self, row: usize, column: usize, element: T) -> (result: Result<(), Error>)
        ensures
            final(self)@ == old(self)@.set(row as int, column as int, element),
            (match result {
                Ok(_) => old(self)@.contains(row as int, column as int),
                Err(error) => {
                    &&& !old(self)@.contains(row as int, column as int)
                    &&& error == Error::IndicesOutOfBounds(row, column)
                },
            }),
    {
        match self.get_mut(row, column) {
            Some(location) => {
                *location = element;
                Ok(())
            },
            None => Err(Error::IndicesOutOfBounds(row, column)),
        }
    }

    /// Changes the element at the given `index` to `element`, in row major
    /// order. Out of bounds nothing changes and the index comes back in the
    /// error.
    pub fn set_row_major(&mut self, index: usize, element: T) -> (result: Result<(), Error>)
        ensures
            final(self)@ == old(self)@.set_row_major(index as int, element),
            (match result {
                Ok(_) => index < old(self)@.rows * old(self)@.columns,
                Err(error) => {
                    &&& index >= old(self)@.rows * old(self)@.columns
                    &&& error == Error::IndexOutOfBounds(index)
                },
            }),
    {
        match self.get_mut_row_major(index) {
            Some(location) => {
                *location = element;
                Ok(())
            },
            None => Err(Error::IndexOutOfBounds(index)),
        }
    }

    /// Changes the element at the given `index` to `element`, in column
    /// major order. Out of bounds nothing changes and the index comes back
    /// in the error.
    pub fn set_column_major(&mut self, index: usize, element: T) -> (result: Result<(), Error>)
        ensures
            final(self)@ == old(self)@.set_column_major(index as int, element),
            (match result {
                Ok(_) => index < old(self)@.rows * old(self)@.columns,
                Err(error) => {
                    &&& index >= old(self)@.rows * old(self)@.columns
                    &&& error == Error::IndexOutOfBounds(index)
                },
            }),
    {
        match self.get_mut_column_major(index) {
            Some(location) => {
                *location = element;
                Ok(())
            },
            None => Err(Error::IndexOutOfBounds(index)),
        }
    }

    /// The offset in the storage of the cell at `(row, column)`, if there is
    /// such a cell. All coordinate arithmetic goes through here.
    fn get_index(&self, row: usize, column: usize) -> (result: Option<usize>)
        ensures
            (match result {
                Some(index) => {
                    &&& self@.contains(row as int, column as int)
                    &&& index == crate::layout::linear_index(
                        row as int,
                        column as int,
                        self@.columns as int,
                    )
                    &&& index < self@.cells.len()
                },
                None => !self@.contains(row as int, column as int),
            }),
    {
        proof {
            use_type_invariant(self);
        }
        if row < self.num_rows && column < self.num_columns {
            proof {
                lemma_linear_index_in_range(
                    row as int,
                    column as int,
                    self.num_rows as int,
                    self.num_columns as int,
                );
                lemma_stripe(row as int, self.num_rows as int, self.num_columns as int);
                assert(self.array@.len() == self.array.len());
            }
            Some(row * self.row_len() + column)
        } else {
            None
        }
    }
}

impl<T: Clone> Clone for Array2D<T> {
    /// An independent array of the same dimensions that holds clones of
    /// the elements.
    fn clone(&self) -> (result: Self)
        ensures
            result@.is_copy_of(self@),
    {
        proof {
            use_type_invariant(self);
        }
        Array2D {
            array: self.array.clone(),
            num_rows: self.num_rows,
            num_columns: self.num_columns,
        }
    }
}

impl<T: PartialEq> PartialEq for Array2D<T> {
    /// Two arrays are equal when they have the same dimensions and equal
    /// elements at every position.
    fn eq(&self, other: &Self) -> (result: bool) {
        self.num_rows == other.num_rows && self.num_columns == other.num_columns && self.array
            == other.array
    }
}

impl<T: PartialEq> PartialEqSpecImpl for Array2D<T> {
    open spec fn obeys_eq_spec() -> bool {
        T::obeys_eq_spec()
    }

    open spec fn eq_spec(&self, other: &Self) -> bool {
        &&& self@.rows == other@.rows
        &&& self@.columns == other@.columns
        &&& self@.cells.len() == other@.cells.len()
        &&& forall|index: int|
            0 <= index < self@.cells.len() ==> (#[trigger] self@.cells[index]).eq_spec(
                &other@.cells[index],
            )
    }
}

impl<T: Eq> Eq for Array2D<T> {

}

impl<T> vstd::std_specs::core::IndexSpecImpl<(usize, usize)> for Array2D<T> {
    /// Indexing asks for indices that are in bounds.
    open spec fn index_req(&self, indices: &(usize, usize)) -> bool {
        self@.contains(indices.0 as int, indices.1 as int)
    }
}

impl<T> std::ops::Index<(usize, usize)> for Array2D<T> {
    type Output = T;

    /// Returns the element at the given indices, given as `(row, column)`.
    /// The indices have to be in bounds; [`Array2D::get`] is there for
    /// indices that may not be.
    fn index(&self, indices: (usize, usize)) -> (output: &T)
        ensures
            *output == self@.at(indices.0 as int, indices.1 as int),
    {
        match self.get(indices.0, indices.1) {
            Some(cell) => cell,
            None => unreached(),
        }
    }
}

impl<T> std::ops::IndexMut<(usize, usize)> for Array2D<T> {
    /// Returns a mutable version of the element at the given indices, given
    /// as `(row, column)`. The indices have to be in bounds;
    /// [`Array2D::get_mut`] is there for indices that may not be.
    fn index_mut(&mut self, indices: (usize, usize)) -> (output: &mut T)
        requires
            old(self)@.contains(indices.0 as int, indices.1 as int),
        ensures
            *output == old(self)@.at(indices.0 as int, indices.1 as int),
            final(self)@ == old(self)@.set(indices.0 as int, indices.1 as int, *final(output)),
    {
        match self.get_mut(indices.0, indices.1) {
            Some(cell) => cell,
            None => unreached(),
        }
    }
}

} // verus!
