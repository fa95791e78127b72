use array2d::{Array2D, Error};
use std::collections::hash_map::DefaultHasher;
use std::collections::HashSet;
use std::hash::{Hash, Hasher};

fn sample() -> Array2D<i32> {
    Array2D::from_rows(&[vec![1, 2, 3], vec![4, 5, 6]]).unwrap()
}

fn hash_of<T: Hash>(value: &T) -> u64 {
    let mut hasher = DefaultHasher::new();
    value.hash(&mut hasher);
    hasher.finish()
}

#[test]
fn round_trip_rows() {
    let rows = vec![vec![7, 8], vec![9, 10], vec![11, 12]];
    assert_eq!(Array2D::from_rows(&rows).unwrap().as_rows(), rows);
}

#[test]
fn round_trip_columns() {
    let columns = vec![vec![7, 8], vec![9, 10], vec![11, 12]];
    let array = Array2D::from_columns(&columns).unwrap();
    assert_eq!(array.num_rows(), 2);
    assert_eq!(array.num_columns(), 3);
    assert_eq!(array.as_columns(), columns);
    assert_eq!(array.as_rows(), vec![vec![7, 9, 11], vec![8, 10, 12]]);
}

#[test]
fn round_trip_row_major() {
    let flat = vec![1, 2, 3, 4, 5, 6];
    let array = Array2D::from_row_major(3, 2, &flat).unwrap();
    assert_eq!(array.as_row_major(), flat);
    assert_eq!(array.as_rows(), vec![vec![1, 2], vec![3, 4], vec![5, 6]]);
}

#[test]
fn round_trip_column_major() {
    let flat = vec![1, 2, 3, 4, 5, 6];
    let array = Array2D::from_column_major(3, 2, &flat).unwrap();
    assert_eq!(array.as_column_major(), flat);
    assert_eq!(array.as_rows(), vec![vec![1, 4], vec![2, 5], vec![3, 6]]);
    assert_eq!(array.as_row_major(), vec![1, 4, 2, 5, 3, 6]);
}

#[test]
fn constructions_agree() {
    let by_rows = sample();
    let by_row_major = Array2D::from_row_major(2, 3, &[1, 2, 3, 4, 5, 6]).unwrap();
    let by_columns = Array2D::from_columns(&[vec![1, 4], vec![2, 5], vec![3, 6]]).unwrap();
    let by_column_major = Array2D::from_column_major(2, 3, &[1, 4, 2, 5, 3, 6]).unwrap();
    let by_iter = Array2D::from_iter_row_major(2, 3, 1..).unwrap();
    assert_eq!(by_rows, by_row_major);
    assert_eq!(by_rows, by_columns);
    assert_eq!(by_rows, by_column_major);
    assert_eq!(by_rows, by_iter);
}

#[test]
fn unequal_when_dimensions_or_elements_differ() {
    let two_by_three = sample();
    let three_by_two = Array2D::from_row_major(3, 2, &[1, 2, 3, 4, 5, 6]).unwrap();
    assert_ne!(two_by_three, three_by_two);
    let mut changed = sample();
    changed.set(0, 0, 100).unwrap();
    assert_ne!(two_by_three, changed);
    let no_rows: Array2D<i32> = Array2D::from_row_major(0, 4, &[]).unwrap();
    let no_columns: Array2D<i32> = Array2D::from_row_major(4, 0, &[]).unwrap();
    assert_ne!(no_rows, no_columns);
}

#[test]
fn equal_arrays_hash_alike() {
    let by_rows = sample();
    let by_column_major = Array2D::from_column_major(2, 3, &[1, 4, 2, 5, 3, 6]).unwrap();
    assert_eq!(hash_of(&by_rows), hash_of(&by_column_major));
}

#[test]
fn index_mapping_row_major() {
    let array = Array2D::from_iter_row_major(3, 4, 0..).unwrap();
    for row in 0..3 {
        for column in 0..4 {
            let index = row * 4 + column;
            assert_eq!(array.get_row_major(index), array.get(row, column));
            assert_eq!(array.get(row, column), Some(&(index as i32)));
        }
    }
    assert_eq!(array.get_row_major(12), None);
}

#[test]
fn index_mapping_column_major() {
    let array = Array2D::from_iter_row_major(3, 4, 0..).unwrap();
    for index in 0..12 {
        assert_eq!(array.get_column_major(index), array.get(index % 3, index / 3));
        assert!(array.get_column_major(index).is_some());
    }
    assert_eq!(array.get_column_major(5), Some(&9));
    assert_eq!(array.get_column_major(12), None);
}

#[test]
fn dimensions_survive_sets() {
    let mut array = sample();
    array.set(0, 0, 10).unwrap();
    array.set_row_major(5, 60).unwrap();
    array.set_column_major(1, 40).unwrap();
    assert!(array.set(2, 0, 0).is_err());
    assert!(array.set_row_major(6, 0).is_err());
    assert!(array.set_column_major(6, 0).is_err());
    assert_eq!(array.num_rows(), 2);
    assert_eq!(array.num_columns(), 3);
    assert_eq!(array.num_elements(), 6);
    assert_eq!(array.num_rows() * array.num_columns(), array.as_row_major().len());
    assert_eq!(array.as_rows(), vec![vec![10, 2, 3], vec![40, 5, 60]]);
}

#[test]
fn failed_set_changes_nothing() {
    let mut array = sample();
    assert_eq!(array.set(10, 20, 0), Err(Error::IndicesOutOfBounds(10, 20)));
    assert_eq!(array.set(0, 3, 0), Err(Error::IndicesOutOfBounds(0, 3)));
    assert_eq!(array.set(2, 0, 0), Err(Error::IndicesOutOfBounds(2, 0)));
    assert_eq!(array.set_row_major(10, 0), Err(Error::IndexOutOfBounds(10)));
    assert_eq!(array.set_column_major(10, 0), Err(Error::IndexOutOfBounds(10)));
    assert_eq!(array, sample());
}

#[test]
fn traversals_cover_every_coordinate_once() {
    let array = Array2D::filled_with(3, 5, 0u8);
    let by_rows: Vec<(usize, usize)> = array.indices_row_major().collect();
    let by_columns: Vec<(usize, usize)> = array.indices_column_major().collect();
    assert_eq!(by_rows.len(), 15);
    assert_eq!(by_columns.len(), 15);
    assert_ne!(by_rows, by_columns);
    let row_set: HashSet<(usize, usize)> = by_rows.iter().copied().collect();
    let column_set: HashSet<(usize, usize)> = by_columns.iter().copied().collect();
    assert_eq!(row_set.len(), 15);
    assert_eq!(column_set.len(), 15);
    assert_eq!(row_set, column_set);
    for row in 0..3 {
        for column in 0..5 {
            assert!(row_set.contains(&(row, column)));
            assert_eq!(by_rows[row * 5 + column], (row, column));
            assert_eq!(by_columns[column * 3 + row], (row, column));
        }
    }
    assert_eq!(array.elements_row_major_iter().count(), 15);
    assert_eq!(array.elements_column_major_iter().count(), 15);
}

#[test]
fn indices_in_both_orders() {
    let array = sample();
    assert_eq!(
        array.indices_row_major().collect::<Vec<_>>(),
        vec![(0, 0), (0, 1), (0, 2), (1, 0), (1, 1), (1, 2)]
    );
    assert_eq!(
        array.indices_column_major().collect::<Vec<_>>(),
        vec![(0, 0), (1, 0), (0, 1), (1, 1), (0, 2), (1, 2)]
    );
}

#[test]
fn enumerate_in_both_orders() {
    let array = sample();
    assert_eq!(
        array.enumerate_row_major().collect::<Vec<_>>(),
        vec![
            ((0, 0), &1),
            ((0, 1), &2),
            ((0, 2), &3),
            ((1, 0), &4),
            ((1, 1), &5),
            ((1, 2), &6)
        ]
    );
    assert_eq!(
        array.enumerate_column_major().collect::<Vec<_>>(),
        vec![
            ((0, 0), &1),
            ((1, 0), &4),
            ((0, 1), &2),
            ((1, 1), &5),
            ((0, 2), &3),
            ((1, 2), &6)
        ]
    );
}

#[test]
fn concrete_scenario() {
    let array = sample();
    assert_eq!(array.get(1, 2), Some(&6));
    assert_eq!(array[(1, 2)], 6);
    assert_eq!(array.as_column_major(), vec![1, 4, 2, 5, 3, 6]);
    assert_eq!(array.get_column_major(4), Some(&3));
    assert_eq!(array.get_column_major(2), Some(&2));
    assert_eq!(array.get_row_major(2), Some(&3));
    assert_eq!(array.get_row_major(10), None);
    assert_eq!(array.get_column_major(10), None);
}

#[test]
fn elements_in_both_orders() {
    let array = sample();
    let row_major: Vec<i32> = array.elements_row_major_iter().cloned().collect();
    let column_major: Vec<i32> = array.elements_column_major_iter().cloned().collect();
    assert_eq!(row_major, vec![1, 2, 3, 4, 5, 6]);
    assert_eq!(column_major, vec![1, 4, 2, 5, 3, 6]);
}

#[test]
fn rows_and_columns_one_by_one() {
    let array = sample();
    let second_row: Vec<i32> = array.row_iter(1).unwrap().cloned().collect();
    assert_eq!(second_row, vec![4, 5, 6]);
    let second_column: Vec<i32> = array.column_iter(1).unwrap().cloned().collect();
    assert_eq!(second_column, vec![2, 5]);
    let rows: Vec<Vec<i32>> = array
        .rows_iter()
        .map(|row| row.cloned().collect())
        .collect();
    assert_eq!(rows, vec![vec![1, 2, 3], vec![4, 5, 6]]);
    let columns: Vec<Vec<i32>> = array
        .columns_iter()
        .map(|column| column.cloned().collect())
        .collect();
    assert_eq!(columns, vec![vec![1, 4], vec![2, 5], vec![3, 6]]);
}

#[test]
fn row_and_column_index_equal_to_count_is_out_of_bounds() {
    let array = sample();
    assert_eq!(array.row_iter(2).err(), Some(Error::IndicesOutOfBounds(2, 0)));
    assert_eq!(array.column_iter(3).err(), Some(Error::IndicesOutOfBounds(0, 3)));
    assert!(array.row_iter(1).is_ok());
    assert!(array.column_iter(2).is_ok());
}

#[test]
fn iterators_run_from_both_ends_and_can_be_cloned() {
    let array = sample();
    let mut walk = array.elements_column_major_iter();
    assert_eq!(walk.next(), Some(&1));
    assert_eq!(walk.next_back(), Some(&6));
    let rest: Vec<&i32> = walk.clone().collect();
    assert_eq!(rest, vec![&4, &2, &5, &3]);
    assert_eq!(walk.count(), 4);
    let backwards: Vec<(usize, usize)> = array.indices_row_major().rev().collect();
    assert_eq!(backwards, vec![(1, 2), (1, 1), (1, 0), (0, 2), (0, 1), (0, 0)]);
    let last_first: Vec<((usize, usize), &i32)> = array.enumerate_column_major().rev().collect();
    assert_eq!(last_first[0], ((1, 2), &6));
    assert_eq!(last_first[5], ((0, 0), &1));
}

#[test]
fn iteration_restarts_from_the_beginning() {
    let array = sample();
    let first: Vec<&i32> = array.elements_row_major_iter().collect();
    let second: Vec<&i32> = array.elements_row_major_iter().collect();
    assert_eq!(first, second);
    let third: Vec<&i32> = array.elements_column_major_iter().collect();
    let fourth: Vec<&i32> = array.elements_column_major_iter().collect();
    assert_eq!(third, fourth);
}

#[test]
fn empty_grid_without_rows() {
    let array: Array2D<i32> = Array2D::from_rows(&[]).unwrap();
    assert_eq!(array.num_rows(), 0);
    assert_eq!(array.num_columns(), 0);
    assert_eq!(array.num_elements(), 0);
    assert_eq!(array.as_rows(), Vec::<Vec<i32>>::new());
    assert_eq!(array.as_columns(), Vec::<Vec<i32>>::new());
    assert_eq!(array.get(0, 0), None);
    assert_eq!(array.get_row_major(0), None);
    assert_eq!(array.get_column_major(0), None);
    assert_eq!(array.elements_row_major_iter().count(), 0);
    assert_eq!(array.elements_column_major_iter().count(), 0);
}

#[test]
fn rows_without_columns() {
    let rows: Vec<Vec<i32>> = vec![vec![], vec![], vec![]];
    let mut array = Array2D::from_rows(&rows).unwrap();
    assert_eq!(array.num_rows(), 3);
    assert_eq!(array.num_columns(), 0);
    assert_eq!(array.row_len(), 0);
    assert_eq!(array.column_len(), 3);
    assert_eq!(array.num_elements(), 0);
    assert_eq!(array.as_rows(), rows);
    assert_eq!(array.as_columns(), Vec::<Vec<i32>>::new());
    assert_eq!(array.rows_iter().len(), 3);
    for row in array.rows_iter() {
        assert_eq!(row.count(), 0);
    }
    assert_eq!(array.row_iter(2).unwrap().count(), 0);
    assert!(array.row_iter(3).is_err());
    assert!(array.column_iter(0).is_err());
    assert_eq!(array.indices_row_major().count(), 0);
    assert_eq!(array.indices_column_major().count(), 0);
    assert_eq!(array.get(0, 0), None);
    assert_eq!(array.get_column_major(0), None);
    assert_eq!(array.set(0, 0, 1), Err(Error::IndicesOutOfBounds(0, 0)));
}

#[test]
fn columns_without_rows() {
    let mut array: Array2D<i32> = Array2D::from_row_major(0, 4, &[]).unwrap();
    assert_eq!(array.num_rows(), 0);
    assert_eq!(array.num_columns(), 4);
    assert_eq!(array.as_rows(), Vec::<Vec<i32>>::new());
    assert_eq!(array.as_columns(), vec![Vec::<i32>::new(); 4]);
    assert_eq!(array.columns_iter().len(), 4);
    assert_eq!(array.column_iter(3).unwrap().count(), 0);
    assert_eq!(array.get_column_major(0), None);
    assert_eq!(array.get_column_major(7), None);
    assert_eq!(array.get_mut_column_major(0), None);
    assert_eq!(array.set_column_major(0, 1), Err(Error::IndexOutOfBounds(0)));
    assert_eq!(array.set_row_major(0, 1), Err(Error::IndexOutOfBounds(0)));
    let from_columns: Array2D<i32> = Array2D::from_columns(&[vec![], vec![]]).unwrap();
    assert_eq!(from_columns.num_rows(), 0);
    assert_eq!(from_columns.num_columns(), 2);
}

#[test]
fn no_grid_from_mismatched_input() {
    assert_eq!(
        Array2D::from_rows(&[vec![1, 2, 3], vec![4, 5]]),
        Err(Error::DimensionMismatch)
    );
    assert_eq!(
        Array2D::from_rows(&[vec![], vec![4]]),
        Err(Error::DimensionMismatch)
    );
    assert_eq!(
        Array2D::from_columns(&[vec![1, 4], vec![2, 3], vec![4]]),
        Err(Error::DimensionMismatch)
    );
    assert_eq!(
        Array2D::from_row_major(2, 3, &[1, 2, 3, 4, 5, 6, 7]),
        Err(Error::DimensionMismatch)
    );
    assert_eq!(
        Array2D::from_row_major(2, 3, &[1, 2, 3, 4, 5]),
        Err(Error::DimensionMismatch)
    );
    assert_eq!(
        Array2D::from_column_major(2, 3, &[1, 2, 3, 4, 5, 6, 7]),
        Err(Error::DimensionMismatch)
    );
    assert_eq!(
        Array2D::from_row_major(0, 4, &[1]),
        Err(Error::DimensionMismatch)
    );
}

#[test]
fn dimensions_too_large_to_multiply_match_no_slice() {
    assert_eq!(
        Array2D::from_row_major(usize::MAX, 2, &[1, 2]),
        Err(Error::DimensionMismatch)
    );
    assert_eq!(
        Array2D::from_column_major(usize::MAX, usize::MAX, &[1]),
        Err(Error::DimensionMismatch)
    );
}

#[test]
fn iterator_sources_that_run_short() {
    assert_eq!(
        Array2D::from_iter_row_major(2, 3, 1..5),
        Err(Error::NotEnoughElements)
    );
    assert_eq!(
        Array2D::from_iter_column_major(2, 3, 1..6),
        Err(Error::NotEnoughElements)
    );
    assert_eq!(
        Array2D::from_iter_row_major(1, 1, std::iter::empty::<i32>()),
        Err(Error::NotEnoughElements)
    );
    let none_needed = Array2D::from_iter_row_major(0, 3, std::iter::empty::<i32>()).unwrap();
    assert_eq!(none_needed.num_rows(), 0);
    assert_eq!(none_needed.num_columns(), 3);
}

#[test]
fn iterator_sources_are_read_no_further_than_needed() {
    let mut source = 1..;
    let array = Array2D::from_iter_row_major(2, 3, source.by_ref()).unwrap();
    assert_eq!(array.as_row_major(), vec![1, 2, 3, 4, 5, 6]);
    assert_eq!(source.next(), Some(7));
    let mut source = 1..;
    let array = Array2D::from_iter_column_major(2, 3, source.by_ref()).unwrap();
    assert_eq!(array.as_column_major(), vec![1, 2, 3, 4, 5, 6]);
    assert_eq!(array.as_rows(), vec![vec![1, 3, 5], vec![2, 4, 6]]);
    assert_eq!(source.next(), Some(7));
}

#[test]
fn generators_are_called_once_per_cell() {
    let mut calls = 0;
    let array = Array2D::filled_by_row_major(2, 3, || {
        calls += 1;
        calls * 10
    });
    assert_eq!(array.as_rows(), vec![vec![10, 20, 30], vec![40, 50, 60]]);
    assert_eq!(calls, 6);
    let mut calls = 0;
    let array = Array2D::filled_by_column_major(2, 3, || {
        calls += 1;
        calls * 10
    });
    assert_eq!(array.as_rows(), vec![vec![10, 30, 50], vec![20, 40, 60]]);
    assert_eq!(array.as_column_major(), vec![10, 20, 30, 40, 50, 60]);
    assert_eq!(calls, 6);
    let mut calls = 0;
    let empty = Array2D::filled_by_row_major(0, 3, || {
        calls += 1;
        calls
    });
    assert_eq!(empty.num_elements(), 0);
    assert_eq!(calls, 0);
}

#[test]
fn filled_with_and_its_former_name() {
    let array = Array2D::filled_with(2, 3, 42);
    assert_eq!(array.as_rows(), vec![vec![42, 42, 42], vec![42, 42, 42]]);
    assert_eq!(array.get(0, 0), Some(&42));
    assert_eq!(array.get(10, 10), None);
    assert_eq!(Array2D::fill_with(42, 2, 3), array);
    let words = Array2D::filled_with(1, 2, String::from("a"));
    assert_eq!(words.as_row_major(), vec![String::from("a"), String::from("a")]);
}

#[test]
fn mutable_references_write_one_cell() {
    let mut array = Array2D::filled_with(2, 3, 42);
    assert_eq!(array.get_mut(0, 0), Some(&mut 42));
    assert_eq!(array.get_mut(10, 10), None);
    if let Some(cell) = array.get_mut(0, 0) {
        *cell = 100;
    }
    if let Some(cell) = array.get_mut_row_major(3) {
        *cell = 200;
    }
    if let Some(cell) = array.get_mut_column_major(4) {
        *cell = 300;
    }
    assert_eq!(array.as_rows(), vec![vec![100, 42, 300], vec![200, 42, 42]]);
    assert_eq!(array.get_mut_row_major(6), None);
    assert_eq!(array.get_mut_column_major(6), None);
    array[(1, 1)] = 7;
    assert_eq!(array[(1, 1)], 7);
}

#[test]
fn a_clone_is_independent() {
    let source = sample();
    let mut copy = source.clone();
    assert_eq!(copy, source);
    copy.set(1, 1, 50).unwrap();
    assert_eq!(source.get(1, 1), Some(&5));
    assert_eq!(copy.get(1, 1), Some(&50));
    assert_ne!(copy, source);
}

#[test]
fn extraction_copies_the_elements() {
    let mut array = sample();
    let rows = array.as_rows();
    array.set(0, 0, 100).unwrap();
    assert_eq!(rows, vec![vec![1, 2, 3], vec![4, 5, 6]]);
}

#[test]
fn messages() {
    assert_eq!(
        Error::IndicesOutOfBounds(10, 20).message(),
        "indices (10, 20) out of bounds"
    );
    assert_eq!(Error::IndexOutOfBounds(10).message(), "index 10 out of bounds");
    assert_eq!(Error::IndexOutOfBounds(0).message(), "index 0 out of bounds");
    assert_eq!(Error::IndexOutOfBounds(9).message(), "index 9 out of bounds");
    assert_eq!(
        Error::IndexOutOfBounds(1234567890).message(),
        "index 1234567890 out of bounds"
    );
    assert_eq!(
        Error::IndexOutOfBounds(usize::MAX).message(),
        format!("index {} out of bounds", usize::MAX)
    );
    assert_eq!(Error::DimensionMismatch.message(), "dimension mismatch");
    assert_eq!(Error::NotEnoughElements.message(), "not enough elements");
}

#[test]
fn debug_rendering_exists() {
    assert!(!format!("{:?}", sample()).is_empty());
    assert_eq!(format!("{:?}", Error::DimensionMismatch), "DimensionMismatch");
}
