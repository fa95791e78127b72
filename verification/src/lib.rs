//! A fixed sized two-dimensional array, verified with Verus.
//!
//! [`Array2D`] keeps the elements of a rectangular grid in one contiguous
//! vector, row after row. Unlike a vector of vectors it cannot become
//! ragged: every row has `num_columns` elements and every column has
//! `num_rows`, and neither dimension changes after construction. A grid may
//! have no rows or no columns; a 3 by 0 grid and a 0 by 3 grid are both
//! valid, and different.
//!
//! # Building an array
//!
//! - from rows or from columns that all have the same length
//!   ([`Array2D::from_rows`], [`Array2D::from_columns`]);
//! - from a flat slice in row major or in column major order, together with
//!   the dimensions ([`Array2D::from_row_major`],
//!   [`Array2D::from_column_major`]);
//! - from one value that is put in every location
//!   ([`Array2D::filled_with`]);
//! - from a function that is called once per location
//!   ([`Array2D::filled_by_row_major`], [`Array2D::filled_by_column_major`]);
//! - from an iterator ([`Array2D::from_iter_row_major`],
//!   [`Array2D::from_iter_column_major`]).
//!
//! # Reading and writing
//!
//! [`Array2D::get`], [`Array2D::get_mut`] and [`Array2D::set`] take a row
//! and a column and answer out-of-bounds indices with `None` or an
//! [`Error`]. Their `_row_major` and `_column_major` variants take a single
//! index into the respective order. Indexing with a pair, `array[(row,
//! column)]`, is for indices that are known to be in bounds.
//!
//! The elements can be walked in row major or column major order, row by
//! row or column by column, with or without their indices, and collected
//! into vectors in all of these shapes.
//!
//! # What is proved
//!
//! Every function has a contract over [`model::Grid`], the mathematical
//! content of an array. The module [`layout`] holds the index arithmetic
//! and [`laws`] the theorems that relate the operations: round trips,
//! the agreement of the constructors, the consistency of the three ways of
//! addressing a cell, and the coverage of the two traversal orders.

pub mod array;
pub mod error;
pub mod laws;
pub mod layout;
pub mod model;

pub use crate::array::Array2D;
pub use crate::error::Error;
