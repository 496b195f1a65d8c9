use mvdist::Matrix;

fn distinct(rows: usize, cols: usize) -> Vec<Vec<f64>> {
    (0..rows)
        .map(|i| (0..cols).map(|j| (i * cols + j) as f64 + 0.5).collect())
        .collect()
}

#[test]
fn from_rows_keeps_the_entries() {
    let m = Matrix::from_rows(&vec![vec![1.0, 2.0, 3.0], vec![4.0, 5.0, 6.0]]).unwrap();
    assert_eq!(m.rows(), 2);
    assert_eq!(m.cols(), 3);
    assert_eq!(m.get(0, 0), Some(1.0));
    assert_eq!(m.get(0, 2), Some(3.0));
    assert_eq!(m.get(1, 0), Some(4.0));
    assert_eq!(m.get(1, 2), Some(6.0));
}

#[test]
fn get_outside_the_matrix_is_none() {
    let m = Matrix::from_rows(&vec![vec![1.0, 2.0, 3.0], vec![4.0, 5.0, 6.0]]).unwrap();
    assert_eq!(m.get(2, 0), None);
    assert_eq!(m.get(0, 3), None);
    assert_eq!(m.get(usize::MAX, usize::MAX), None);
}

#[test]
fn from_rows_refuses_no_rows() {
    assert!(Matrix::<f64>::from_rows(&Vec::new()).is_none());
}

#[test]
fn from_rows_refuses_empty_rows() {
    assert!(Matrix::<f64>::from_rows(&vec![Vec::new()]).is_none());
    assert!(Matrix::<f64>::from_rows(&vec![Vec::new(), Vec::new()]).is_none());
}

#[test]
fn from_rows_refuses_ragged_rows() {
    assert!(Matrix::from_rows(&vec![vec![1.0, 2.0], vec![3.0]]).is_none());
    assert!(Matrix::from_rows(&vec![vec![1.0], vec![2.0, 3.0]]).is_none());
    assert!(Matrix::from_rows(&vec![vec![1.0, 2.0], vec![3.0, 4.0], Vec::new()]).is_none());
}

#[test]
fn from_row_major_reads_row_by_row() {
    let m = Matrix::from_row_major(2, 3, vec![1, 2, 3, 4, 5, 6]).unwrap();
    assert_eq!(m.rows(), 2);
    assert_eq!(m.cols(), 3);
    assert_eq!(m.get(0, 1), Some(2));
    assert_eq!(m.get(1, 0), Some(4));
    assert_eq!(m.get(1, 2), Some(6));
}

#[test]
fn from_row_major_refuses_a_zero_dimension() {
    assert!(Matrix::<i32>::from_row_major(0, 3, Vec::new()).is_none());
    assert!(Matrix::<i32>::from_row_major(3, 0, Vec::new()).is_none());
    assert!(Matrix::<i32>::from_row_major(0, 0, Vec::new()).is_none());
}

#[test]
fn from_row_major_refuses_a_wrong_length() {
    assert!(Matrix::from_row_major(2, 3, vec![1, 2, 3, 4, 5]).is_none());
    assert!(Matrix::from_row_major(2, 3, vec![1, 2, 3, 4, 5, 6, 7]).is_none());
    assert!(Matrix::from_row_major(usize::MAX, 2, vec![1, 2]).is_none());
}

#[test]
fn column_major_of_a_wide_matrix() {
    let m = Matrix::from_rows(&vec![vec![1.0, 2.0, 3.0], vec![4.0, 5.0, 6.0]]).unwrap();
    assert_eq!(m.to_column_major(), vec![1.0, 4.0, 2.0, 5.0, 3.0, 6.0]);
}

#[test]
fn column_major_of_a_tall_matrix() {
    let m = Matrix::from_rows(&vec![vec![1, 2], vec![3, 4], vec![5, 6]]).unwrap();
    assert_eq!(m.to_column_major(), vec![1, 3, 5, 2, 4, 6]);
}

#[test]
fn column_major_of_a_single_entry() {
    let m = Matrix::from_rows(&vec![vec![7.5]]).unwrap();
    assert_eq!(m.to_column_major(), vec![7.5]);
}

#[test]
fn column_major_of_a_row_and_of_a_column() {
    let row = Matrix::from_rows(&vec![vec![1, 2, 3]]).unwrap();
    assert_eq!(row.to_column_major(), vec![1, 2, 3]);
    let column = Matrix::from_rows(&vec![vec![1], vec![2], vec![3]]).unwrap();
    assert_eq!(column.to_column_major(), vec![1, 2, 3]);
}

#[test]
fn column_major_of_a_square_matrix_is_the_transpose() {
    for n in 1..=6usize {
        let src = distinct(n, n);
        let m = Matrix::from_rows(&src).unwrap();
        let flat = m.to_column_major();
        assert_eq!(flat.len(), n * n);
        for i in 0..n {
            for j in 0..n {
                assert_eq!(flat[i * n + j], src[j][i]);
            }
        }
        // read back row by row, the buffer is the transpose
        let back = Matrix::from_row_major(n, n, flat).unwrap();
        for i in 0..n {
            for j in 0..n {
                assert_eq!(back.get(i, j), Some(src[j][i]));
            }
        }
    }
}

#[test]
fn column_major_puts_column_after_column() {
    for rows in 1..=5usize {
        for cols in 1..=5usize {
            let src = distinct(rows, cols);
            let m = Matrix::from_rows(&src).unwrap();
            let flat = m.to_column_major();
            assert_eq!(flat.len(), rows * cols);
            for i in 0..rows {
                for j in 0..cols {
                    assert_eq!(flat[j * rows + i], src[i][j]);
                }
            }
        }
    }
}

#[test]
fn column_major_leaves_the_matrix_as_it_was() {
    let src = distinct(3, 4);
    let m = Matrix::from_rows(&src).unwrap();
    let first = m.to_column_major();
    let second = m.to_column_major();
    assert_eq!(first, second);
    for i in 0..3 {
        for j in 0..4 {
            assert_eq!(m.get(i, j), Some(src[i][j]));
        }
    }
}
