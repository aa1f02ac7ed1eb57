use svdwrapper::matrix::Matrix;
use svdwrapper::SvdError;

fn sample() -> Matrix<i32> {
    // [[1, 2, 3],
    //  [4, 5, 6]]
    Matrix::from_shape_vec(2, 3, vec![1, 2, 3, 4, 5, 6]).unwrap()
}

fn entries(m: &Matrix<i32>) -> Vec<Vec<i32>> {
    (0..m.nrows()).map(|r| (0..m.ncols()).map(|c| *m.get(r, c)).collect()).collect()
}

#[test]
fn from_shape_vec_reads_rows() {
    let m = sample();
    assert_eq!(m.dims(), (2, 3));
    assert_eq!(entries(&m), vec![vec![1, 2, 3], vec![4, 5, 6]]);
}

#[test]
fn from_shape_vec_rejects_wrong_length() {
    let err = Matrix::from_shape_vec(2, 3, vec![1, 2, 3, 4, 5]).unwrap_err();
    assert_eq!(err, SvdError::IncompatibleShape);
}

#[test]
fn from_shape_vec_rejects_overflowing_shape() {
    let err = Matrix::<i32>::from_shape_vec(usize::MAX, 2, vec![]).unwrap_err();
    assert_eq!(err, SvdError::IncompatibleShape);
}

#[test]
fn empty_shapes_are_matrices() {
    let m = Matrix::<i32>::from_shape_vec(0, 3, vec![]).unwrap();
    assert_eq!(m.dims(), (0, 3));
    assert!(m.to_column_major().is_empty());
}

#[test]
fn to_column_major_reads_columns() {
    assert_eq!(sample().to_column_major(), vec![1, 4, 2, 5, 3, 6]);
}

#[test]
fn from_column_major_reads_columns() {
    let m = Matrix::from_column_major(2, 3, vec![1, 4, 2, 5, 3, 6]).unwrap();
    assert_eq!(entries(&m), vec![vec![1, 2, 3], vec![4, 5, 6]]);
}

#[test]
fn from_column_major_rejects_wrong_length() {
    let err = Matrix::from_column_major(2, 3, vec![1, 4, 2]).unwrap_err();
    assert_eq!(err, SvdError::IncompatibleShape);
}

#[test]
fn column_major_round_trip() {
    let m = sample();
    let back = Matrix::from_column_major(2, 3, m.to_column_major()).unwrap();
    assert_eq!(entries(&back), entries(&m));
}

#[test]
fn column_major_is_transposed_row_major() {
    let data = vec![1, 2, 3, 4, 5, 6];
    let by_columns = Matrix::from_column_major(2, 3, data.clone()).unwrap();
    let by_rows_transposed = Matrix::from_shape_vec(3, 2, data).unwrap().transpose();
    assert_eq!(entries(&by_columns), entries(&by_rows_transposed));
}

#[test]
fn transpose_swaps_rows_and_columns() {
    let t = sample().transpose();
    assert_eq!(t.dims(), (3, 2));
    assert_eq!(entries(&t), vec![vec![1, 4], vec![2, 5], vec![3, 6]]);
}

#[test]
fn transpose_twice_is_identity() {
    let m = sample();
    assert_eq!(entries(&m.transpose().transpose()), entries(&m));
}

#[test]
fn into_row_major_gives_storage() {
    assert_eq!(sample().into_row_major(), vec![1, 2, 3, 4, 5, 6]);
}

#[test]
fn floats_are_carried_unchanged() {
    let m = Matrix::from_shape_vec(2, 2, vec![1.5f64, -2.0, 0.25, 8.0]).unwrap();
    assert_eq!(m.transpose().into_row_major(), vec![1.5, 0.25, -2.0, 8.0]);
}
