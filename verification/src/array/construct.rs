//! The ways of building an array.

use super::Array2D;
use crate::error::Error;
use crate::layout::lemma_linear_index_in_range;
use crate::layout::lemma_split;
use crate::layout::lemma_stripe;
use crate::model::Grid;
use crate::model::copies;
use crate::model::lemma_flatten_uniform;
use crate::model::nested_view;
use crate::model::rectangular;
use crate::model::width;
use vstd::pervasive::unreached;
use vstd::prelude::*;
use vstd::std_specs::iter::IteratorSpec;

verus! {

impl<T> Array2D<T> {
    /// Creates a new array from a slice of rows, each of which is a vector
    /// of elements.
    ///
    /// Returns an error if the rows are not all the same size. Without rows
    /// the array is 0 by 0; with rows of no elements it has that many rows
    /// and no columns.
    pub fn from_rows(elements: &[Vec<T>]) -> (result: Result<Self, Error>) where T: Clone
        ensures
            (match result {
                Ok(array) => {
                    &&& rectangular(nested_view(elements@))
                    &&& array@.is_copy_of(Grid::from_rows(nested_view(elements@)))
                },
                Err(error) => {
                    &&& !rectangular(nested_view(elements@))
                    &&& error == Error::DimensionMismatch
                },
            }),
    {
        let row_len = match common_length(elements) {
            Some(len) => len,
            None => {
                return Err(Error::DimensionMismatch);
            },
        };
        let array = flatten(elements);
        proof {
            let nested = nested_view(elements@);
            lemma_flatten_uniform(nested, row_len as nat);
            assert(nested.flatten() =~= Grid::from_rows(nested).cells);
        }
        Ok(Array2D { array, num_rows: elements.len(), num_columns: row_len })
    }

    /// Creates a new array from the given flat slice in row major order.
    ///
    /// Returns an error if the number of elements in `elements` is not the
    /// product of `num_rows` and `num_columns`, i.e. the dimensions do not
    /// match.
    pub fn from_row_major(num_rows: usize, num_columns: usize, elements: &[T]) -> (result: Result<
        Self,
        Error,
    >) where T: Clone
        ensures
            (match result {
                Ok(array) => {
                    &&& elements@.len() == num_rows * num_columns
                    &&& array@.is_copy_of(
                        Grid::from_row_major(num_rows as nat, num_columns as nat, elements@),
                    )
                },
                Err(error) => {
                    &&& elements@.len() != num_rows * num_columns
                    &&& error == Error::DimensionMismatch
                },
            }),
    {
        if !area_is(num_rows, num_columns, elements.len()) {
            return Err(Error::DimensionMismatch);
        }
        let mut array: Vec<T> = Vec::new();
        array.extend_from_slice(elements);
        Ok(Array2D { array, num_rows, num_columns })
    }

    /// Creates a new array from a slice of columns, each of which is a
    /// vector of elements.
    ///
    /// Returns an error if the columns are not all the same size. Without
    /// columns the array is 0 by 0.
    #[verifier::loop_isolation(false)]
    pub fn from_columns(elements: &[Vec<T>]) -> (result: Result<Self, Error>) where T: Clone
        ensures
            (match result {
                Ok(array) => {
                    &&& rectangular(nested_view(elements@))
                    &&& array@.is_copy_of(Grid::from_columns(nested_view(elements@)))
                },
                Err(error) => {
                    &&& !rectangular(nested_view(elements@))
                    &&& error == Error::DimensionMismatch
                },
            }),
    {
        let num_rows = match common_length(elements) {
            Some(len) => len,
            None => {
                return Err(Error::DimensionMismatch);
            },
        };
        let num_columns = elements.len();
        let ghost nested = nested_view(elements@);
        let ghost target = Grid::from_columns(nested).cells;
        let mut array: Vec<T> = Vec::new();
        let mut row: usize = 0;
        while row < num_rows
            invariant
                row <= num_rows,
                array@.len() == row * num_columns,
                forall|index: int|
                    0 <= index < array@.len() ==> cloned(target[index], #[trigger] array@[index]),
            decreases num_rows - row,
        {
            let mut column: usize = 0;
            while column < num_columns
                invariant
                    column <= num_columns,
                    array@.len() == row * num_columns + column,
                    forall|index: int|
                        0 <= index < array@.len() ==> cloned(
                            target[index],
                            #[trigger] array@[index],
                        ),
                decreases num_columns - column,
            {
                proof {
                    lemma_linear_index_in_range(
                        row as int,
                        column as int,
                        num_rows as int,
                        num_columns as int,
                    );
                    lemma_split(row as int, column as int, num_columns as int);
                    assert(nested[column as int].len() == num_rows);
                    assert(target[row * num_columns + column] == elements@[column as int]@[row as int]);
                }
                array.push(elements[column][row].clone());
                column += 1;
            }
            proof {
                lemma_stripe(row as int, num_rows as int, num_columns as int);
            }
            row += 1;
        }
        Ok(Array2D { array, num_rows, num_columns })
    }

    /// Creates a new array from the given flat slice in column major order.
    /// The elements are laid out anew, so that the array stores them row by
    /// row.
    ///
    /// Returns an error if the number of elements in `elements` is not the
    /// product of `num_rows` and `num_columns`, i.e. the dimensions do not
    /// match.
    #[verifier::loop_isolation(false)]
    pub fn from_column_major(num_rows: usize, num_columns: usize, elements: &[T]) -> (result:
        Result<Self, Error>) where T: Clone
        ensures
            (match result {
                Ok(array) => {
                    &&& elements@.len() == num_rows * num_columns
                    &&& array@.is_copy_of(
                        Grid::from_column_major(num_rows as nat, num_columns as nat, elements@),
                    )
                },
                Err(error) => {
                    &&& elements@.len() != num_rows * num_columns
                    &&& error == Error::DimensionMismatch
                },
            }),
    {
        if !area_is(num_rows, num_columns, elements.len()) {
            return Err(Error::DimensionMismatch);
        }
        let ghost target = Grid::from_column_major(
            num_rows as nat,
            num_columns as nat,
            elements@,
        ).cells;
        let mut array: Vec<T> = Vec::new();
        let mut row: usize = 0;
        while row < num_rows
            invariant
                row <= num_rows,
                array@.len() == row * num_columns,
                forall|index: int|
                    0 <= index < array@.len() ==> cloned(target[index], #[trigger] array@[index]),
            decreases num_rows - row,
        {
            let mut column: usize = 0;
            while column < num_columns
                invariant
                    column <= num_columns,
                    array@.len() == row * num_columns + column,
                    forall|index: int|
                        0 <= index < array@.len() ==> cloned(
                            target[index],
                            #[trigger] array@[index],
                        ),
                decreases num_columns - column,
            {
                proof {
                    lemma_linear_index_in_range(
                        row as int,
                        column as int,
                        num_rows as int,
                        num_columns as int,
                    );
                    lemma_split(row as int, column as int, num_columns as int);
                    lemma_stripe(column as int, num_columns as int, num_rows as int);
                    assert(target[row * num_columns + column] == elements@[column * num_rows + row]);
                }
                let index = column * num_rows + row;
                array.push(elements[index].clone());
                column += 1;
            }
            proof {
                lemma_stripe(row as int, num_rows as int, num_columns as int);
            }
            row += 1;
        }
        Ok(Array2D { array, num_rows, num_columns })
    }

    /// Creates a new array with the specified number of rows and columns
    /// that contains `element` in every location.
    ///
    /// The number of locations, `num_rows * num_columns`, has to fit in a
    /// `usize`.
    pub fn filled_with(num_rows: usize, num_columns: usize, element: T) -> (result: Self) where
        T: Clone,

        requires
            num_rows * num_columns <= usize::MAX,
        ensures
            result@.is_copy_of(Grid::filled(num_rows as nat, num_columns as nat, element)),
    {
        let total_len = num_rows * num_columns;
        let array = vec![element; total_len];
        Array2D { array, num_rows, num_columns }
    }

    /// The former name of [`filled_with`](Self::filled_with), with the
    /// element first. New code calls `filled_with`.
    pub fn fill_with(element: T, num_rows: usize, num_columns: usize) -> (result: Self) where
        T: Clone,

        requires
            num_rows * num_columns <= usize::MAX,
        ensures
            result@.is_copy_of(Grid::filled(num_rows as nat, num_columns as nat, element)),
    {
        Array2D::filled_with(num_rows, num_columns, element)
    }

    /// Creates a new array with the specified number of rows and columns
    /// and fills each element with the result of calling the given
    /// function. The function is called once for every location going in
    /// row major order.
    ///
    /// The number of locations, `num_rows * num_columns`, has to fit in a
    /// `usize`, and the function has to be one that may be called.
    pub fn filled_by_row_major<F>(num_rows: usize, num_columns: usize, generator: F) -> (result:
        Self) where F: FnMut() -> T
        requires
            num_rows * num_columns <= usize::MAX,
            call_requires(generator, ()),
        ensures
            result@.rows == num_rows,
            result@.columns == num_columns,
            result@.cells.len() == num_rows * num_columns,
            forall|index: int|
                0 <= index < num_rows * num_columns ==> call_ensures(
                    generator,
                    (),
                    #[trigger] result@.cells[index],
                ),
    {
        let total_len = num_rows * num_columns;
        let array = generate(total_len, generator);
        Array2D { array, num_rows, num_columns }
    }

    /// Creates a new array with the specified number of rows and columns
    /// and fills each element with the result of calling the given
    /// function. The function is called once for every location going in
    /// column major order: the value of the i-th call ends up at the i-th
    /// position of that order.
    ///
    /// The number of locations, `num_rows * num_columns`, has to fit in a
    /// `usize`, and the function has to be one that may be called.
    pub fn filled_by_column_major<F>(num_rows: usize, num_columns: usize, generator: F) -> (result:
        Self) where F: FnMut() -> T, T: Clone
        requires
            num_rows * num_columns <= usize::MAX,
            call_requires(generator, ()),
        ensures
            (exists|outputs: Seq<T>|
                {
                    &&& outputs.len() == num_rows * num_columns
                    &&& forall|index: int|
                        0 <= index < outputs.len() ==> call_ensures(
                            generator,
                            (),
                            #[trigger] outputs[index],
                        )
                    &&& #[trigger] result@.is_copy_of(
                        Grid::from_column_major(num_rows as nat, num_columns as nat, outputs),
                    )
                }),
    {
        let total_len = num_rows * num_columns;
        let array_column_major = generate(total_len, generator);
        match Array2D::from_column_major(num_rows, num_columns, array_column_major.as_slice()) {
            Ok(array) => array,
            Err(_) => unreached(),
        }
    }

    /// Creates a new array with the specified number of rows and columns
    /// and fills each element with the elements produced from the provided
    /// iterator, in row major order. If the iterator produces more than
    /// enough elements, the remaining are unused. Returns an error if the
    /// iterator does not produce enough elements.
    ///
    /// The number of locations, `num_rows * num_columns`, has to fit in a
    /// `usize`. Which elements the array holds, and when the iterator runs
    /// short, is stated for iterators that keep to the iterator laws of
    /// `vstd`; of any other iterator the contract fixes the dimensions and
    /// the kind of error only.
    pub fn from_iter_row_major<I>(num_rows: usize, num_columns: usize, iterator: I) -> (result:
        Result<Self, Error>) where I: Iterator<Item = T>
        requires
            num_rows * num_columns <= usize::MAX,
        ensures
            num_rows * num_columns == 0 ==> result is Ok,
            (match result {
                Ok(array) => {
                    &&& array@.rows == num_rows
                    &&& array@.columns == num_columns
                    &&& array@.cells.len() == num_rows * num_columns
                    &&& iterator.obeys_prophetic_iter_laws() ==> {
                        &&& iterator.remaining().len() >= num_rows * num_columns
                        &&& array@.cells == iterator.remaining().take(num_rows * num_columns)
                    }
                },
                Err(error) => {
                    &&& error == Error::NotEnoughElements
                    &&& iterator.obeys_prophetic_iter_laws() ==> iterator.remaining().len()
                        < num_rows * num_columns
                },
            }),
    {
        let total_len = num_rows * num_columns;
        let array = take_first(iterator, total_len);
        if array.len() != total_len {
            return Err(Error::NotEnoughElements);
        }
        Ok(Array2D { array, num_rows, num_columns })
    }

    /// Creates a new array with the specified number of rows and columns
    /// and fills each element with the elements produced from the provided
    /// iterator, in column major order. If the iterator produces more than
    /// enough elements, the remaining are unused. Returns an error if the
    /// iterator does not produce enough elements.
    ///
    /// The number of locations, `num_rows * num_columns`, has to fit in a
    /// `usize`. Which elements the array holds, and when the iterator runs
    /// short, is stated for iterators that keep to the iterator laws of
    /// `vstd`; of any other iterator the contract fixes the dimensions and
    /// the kind of error only.
    pub fn from_iter_column_major<I>(num_rows: usize, num_columns: usize, iterator: I) -> (result:
        Result<Self, Error>) where I: Iterator<Item = T>, T: Clone
        requires
            num_rows * num_columns <= usize::MAX,
        ensures
            num_rows * num_columns == 0 ==> result is Ok,
            (match result {
                Ok(array) => {
                    &&& array@.rows == num_rows
                    &&& array@.columns == num_columns
                    &&& array@.cells.len() == num_rows * num_columns
                    &&& iterator.obeys_prophetic_iter_laws() ==> {
                        &&& iterator.remaining().len() >= num_rows * num_columns
                        &&& array@.is_copy_of(
                            Grid::from_column_major(
                                num_rows as nat,
                                num_columns as nat,
                                iterator.remaining().take(num_rows * num_columns),
                            ),
                        )
                    }
                },
                Err(error) => {
                    &&& error == Error::NotEnoughElements
                    &&& iterator.obeys_prophetic_iter_laws() ==> iterator.remaining().len()
                        < num_rows * num_columns
                },
            }),
    {
        let total_len = num_rows * num_columns;
        let array_column_major = take_first(iterator, total_len);
        match Array2D::from_column_major(num_rows, num_columns, array_column_major.as_slice()) {
            Ok(array) => Ok(array),
            Err(_) => Err(Error::NotEnoughElements),
        }
    }
}

/// Whether `num_rows * num_columns`, taken without wrapping, is `len`.
fn area_is(num_rows: usize, num_columns: usize, len: usize) -> (result: bool)
    ensures
        result <==> num_rows * num_columns == len,
{
    match num_rows.checked_mul(num_columns) {
        Some(total_len) => total_len == len,
        None => false,
    }
}

/// The results of `count` calls of `generator`, in the order of the calls.
fn generate<T, F>(count: usize, generator: F) -> (result: Vec<T>) where F: FnMut() -> T
    requires
        call_requires(generator, ()),
    ensures
        result@.len() == count,
        forall|index: int|
            0 <= index < count ==> call_ensures(generator, (), #[trigger] result@[index]),
{
    let mut produce = generator;
    let mut result: Vec<T> = Vec::new();
    let mut index: usize = 0;
    while index < count
        invariant
            produce == generator,
            call_requires(generator, ()),
            index <= count,
            result@.len() == index,
            forall|done: int|
                0 <= done < index ==> call_ensures(generator, (), #[trigger] result@[done]),
        decreases count - index,
    {
        result.push(produce());
        index += 1;
    }
    result
}

/// The first `count` items of `iterator`, or all of them if it has fewer.
fn take_first<I>(iterator: I, count: usize) -> (result: Vec<I::Item>) where I: Iterator
    ensures
        result@.len() <= count,
        (iterator.obeys_prophetic_iter_laws() ==> {
            &&& result@.len() == count <==> iterator.remaining().len() >= count
            &&& result@ == iterator.remaining().take(result@.len() as int)
        }),
{
    let mut source = iterator;
    let mut result: Vec<I::Item> = Vec::new();
    while result.len() < count
        invariant
            result@.len() <= count,
            source.obeys_prophetic_iter_laws() == iterator.obeys_prophetic_iter_laws(),
            iterator.obeys_prophetic_iter_laws() ==> {
                &&& result@.len() <= iterator.remaining().len()
                &&& result@ == iterator.remaining().take(result@.len() as int)
                &&& source.remaining() == iterator.remaining().skip(result@.len() as int)
            },
        decreases count - result@.len(),
    {
        match source.next() {
            Some(item) => {
                result.push(item);
                proof {
                    if iterator.obeys_prophetic_iter_laws() {
                        let all = iterator.remaining();
                        let taken = result@.len() as int;
                        assert(result@ =~= all.take(taken));
                        assert(source.remaining() =~= all.skip(taken));
                    }
                }
            },
            None => {
                proof {
                    if iterator.obeys_prophetic_iter_laws() {
                        let all = iterator.remaining();
                        assert(all.skip(result@.len() as int).len() == 0);
                    }
                }
                return result;
            },
        }
    }
    result
}

/// The length that all vectors of `nested` share, if they share one. Where
/// there is no vector, that length is zero.
fn common_length<T>(nested: &[Vec<T>]) -> (result: Option<usize>)
    ensures
        (match result {
            Some(len) => {
                &&& rectangular(nested_view(nested@))
                &&& len == width(nested_view(nested@))
            },
            None => !rectangular(nested_view(nested@)),
        }),
{
    let len = if nested.len() > 0 {
        nested[0].len()
    } else {
        0
    };
    let mut index: usize = 0;
    while index < nested.len()
        invariant
            index <= nested@.len(),
            len == width(nested_view(nested@)),
            forall|done: int|
                0 <= done < index ==> (#[trigger] nested_view(nested@)[done]).len() == len,
        decreases nested@.len() - index,
    {
        if nested[index].len() != len {
            assert(nested_view(nested@)[index as int].len() != len);
            return None;
        }
        index += 1;
    }
    Some(len)
}

/// Clones of all elements of `nested`, one vector after the other.
fn flatten<T: Clone>(nested: &[Vec<T>]) -> (result: Vec<T>)
    ensures
        copies(nested_view(nested@).flatten(), result@),
{
    let mut result: Vec<T> = Vec::new();
    let mut i: usize = 0;
    while i < nested.len()
        invariant
            i <= nested@.len(),
            copies(nested_view(nested@).take(i as int).flatten(), result@),
        decreases nested@.len() - i,
    {
        let ghost before = result@;
        let ghost done = nested_view(nested@).take(i as int);
        result.extend_from_slice(nested[i].as_slice());
        proof {
            let row = nested@[i as int]@;
            assert(nested_view(nested@).take(i + 1) =~= done.push(row));
            done.lemma_flatten_push(row);
            assert forall|k: int| 0 <= k < result@.len() implies cloned(
                (done.flatten() + row)[k],
                #[trigger] result@[k],
            ) by {
                if k < before.len() {
                    assert(result@[k] == before[k]);
                }
            }
        }
        i += 1;
    }
    proof {
        assert(nested_view(nested@).take(i as int) =~= nested_view(nested@));
    }
    result
}

} // verus!
