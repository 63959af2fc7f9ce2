use matrix_lib::{Add, BuilderMatrix, Matrix, MatrixError};

fn built(rows: usize, cols: usize, data: Vec<Vec<f64>>) -> Matrix<f64> {
    Matrix::builder().rows(rows).cols(cols).data(data).done().unwrap()
}

fn plus(a: f64, b: f64) -> f64 {
    a + b
}

fn texts(m: &Matrix<f64>) -> Matrix<String> {
    let mut data = Vec::new();
    for row in &m.data {
        data.push(row.iter().map(|v| format!("{}", v)).collect());
    }
    Matrix { rows: m.rows, cols: m.cols, data }
}

#[test]
fn zero_rows_is_invalid_size() {
    let r = Matrix::<f64>::builder().rows(0).cols(3).done();
    assert_eq!(r.unwrap_err(), MatrixError::InvalidMatrixSize);
}

#[test]
fn zero_cols_is_invalid_size_even_with_data() {
    let r = Matrix::builder().rows(1).cols(0).data(vec![vec![1.0]]).done();
    assert_eq!(r.unwrap_err(), MatrixError::InvalidMatrixSize);
    let r = Matrix::builder().rows(0).cols(0).data(vec![vec![1.0, 2.0]]).done();
    assert_eq!(r.unwrap_err(), MatrixError::InvalidMatrixSize);
}

#[test]
fn default_builder_gives_one_zero_cell() {
    let m = Matrix::<f64>::builder().done().unwrap();
    assert_eq!(m.rows, 1);
    assert_eq!(m.cols, 1);
    assert_eq!(m.data, vec![vec![0.0]]);
}

#[test]
fn dimensions_only_fill_with_zero() {
    let m = Matrix::<f64>::builder().rows(3).cols(2).done().unwrap();
    assert_eq!(m.rows, 3);
    assert_eq!(m.cols, 2);
    assert_eq!(m.data, vec![vec![0.0, 0.0], vec![0.0, 0.0], vec![0.0, 0.0]]);
}

#[test]
fn too_many_rows_is_data_mismatch() {
    let r = Matrix::builder()
        .rows(2)
        .cols(3)
        .data(vec![vec![1.0, 2.0, 3.0], vec![4.0, 5.0, 6.0], vec![7.0, 8.0, 9.0]])
        .done();
    assert_eq!(r.unwrap_err(), MatrixError::DataMismatch);
}

#[test]
fn short_inner_row_is_data_mismatch() {
    let r = Matrix::builder().rows(2).cols(2).data(vec![vec![1.0, 2.0], vec![3.0]]).done();
    assert_eq!(r.unwrap_err(), MatrixError::DataMismatch);
}

#[test]
fn data_of_declared_shape_is_kept() {
    let data = vec![vec![1.0, 2.0, 3.0], vec![4.0, 5.0, 6.0]];
    let m = built(2, 3, data.clone());
    assert_eq!(m.rows, 2);
    assert_eq!(m.cols, 3);
    assert_eq!(m.data, data);
}

#[test]
fn single_cell_data_with_defaults() {
    let m = Matrix::builder().data(vec![vec![8.0]]).done().unwrap();
    assert_eq!(m.data, vec![vec![8.0]]);
}

#[test]
fn later_setting_replaces_earlier() {
    let b: BuilderMatrix<f64> = Matrix::builder().rows(5).rows(2).cols(1);
    let m = b.data(vec![vec![9.0]]).data(vec![vec![1.0], vec![3.0]]).done().unwrap();
    assert_eq!(m.rows, 2);
    assert_eq!(m.data, vec![vec![1.0], vec![3.0]]);
}

#[test]
fn get_inside_and_outside() {
    let m = built(2, 2, vec![vec![1.0, 2.0], vec![3.0, 4.0]]);
    assert_eq!(m.get(0, 1), Some(2.0));
    assert_eq!(m.get(1, 0), Some(3.0));
    assert_eq!(m.get(2, 0), None);
    assert_eq!(m.get(0, 2), None);
    assert_eq!(m.get(usize::MAX, usize::MAX), None);
}

#[test]
fn get_on_placeholder_finds_nothing() {
    let m = Matrix::<f64>::new();
    assert_eq!(m.rows, 1);
    assert_eq!(m.cols, 1);
    assert!(m.data.is_empty());
    assert_eq!(m.get(0, 0), None);
}

#[test]
fn find_first_in_row_major_order() {
    let m = built(2, 2, vec![vec![1.0, 2.0], vec![3.0, 2.0]]);
    assert_eq!(m.find(|v| *v == 2.0), Some((0, 1)));
    assert_eq!(m.find(|v| *v == 3.0), Some((1, 0)));
    assert_eq!(m.find(|v| *v == 7.0), None);
}

#[test]
fn find_nan_is_not_found() {
    let m = built(1, 2, vec![vec![f64::NAN, 1.0]]);
    let x = f64::NAN;
    assert_eq!(m.find(|v| *v == x), None);
}

#[test]
fn verify_addition_needs_equal_shapes() {
    let a = built(2, 3, vec![vec![1.0, 2.0, 3.0], vec![4.0, 5.0, 6.0]]);
    let b = built(3, 2, vec![vec![7.0, 8.0], vec![9.0, 10.0], vec![11.0, 12.0]]);
    let c = built(2, 3, vec![vec![0.0; 3]; 2]);
    assert!(!a.verify(false, &b));
    assert!(!b.verify(false, &a));
    assert!(a.verify(false, &c));
    assert!(c.verify(false, &a));
}

#[test]
fn verify_multiplication_compares_rows_with_other_cols() {
    let a = built(2, 3, vec![vec![1.0, 2.0, 3.0], vec![4.0, 5.0, 6.0]]);
    let b = built(3, 2, vec![vec![7.0, 8.0], vec![9.0, 10.0], vec![11.0, 12.0]]);
    assert!(a.verify(true, &b));
    let c = Matrix::<f64>::builder().rows(2).cols(4).done().unwrap();
    let d = Matrix::<f64>::builder().rows(3).cols(2).done().unwrap();
    // c.rows == d.cols, though c.cols != d.rows
    assert!(c.verify(true, &d));
    // not symmetric: d.rows != c.cols
    assert!(!d.verify(true, &c));
}

#[test]
fn add_two_by_two() {
    let a = built(2, 2, vec![vec![1.0, 2.0], vec![3.0, 4.0]]);
    let b = built(2, 2, vec![vec![5.0, 6.0], vec![7.0, 8.0]]);
    let s = a.add_with(&b, plus).unwrap();
    assert_eq!(s.rows, 2);
    assert_eq!(s.cols, 2);
    assert_eq!(s.data, vec![vec![6.0, 8.0], vec![10.0, 12.0]]);
    assert_eq!(a.data, vec![vec![1.0, 2.0], vec![3.0, 4.0]]);
}

#[test]
fn add_mismatched_shapes_fails() {
    let a = built(2, 3, vec![vec![1.0, 2.0, 3.0], vec![4.0, 5.0, 6.0]]);
    let b = built(3, 2, vec![vec![7.0, 8.0], vec![9.0, 10.0], vec![11.0, 12.0]]);
    assert_eq!(a.add_with(&b, plus).unwrap_err(), MatrixError::DimensionMismatch);
}

#[test]
fn add_propagates_nan_and_infinity() {
    let a = built(1, 2, vec![vec![f64::NAN, f64::INFINITY]]);
    let b = built(1, 2, vec![vec![1.0, 1.0]]);
    let s = a.add_with(&b, plus).unwrap();
    assert!(s.data[0][0].is_nan());
    assert_eq!(s.data[0][1], f64::INFINITY);
}

struct Tally(i64);

impl Add for Tally {
    type Output = Tally;

    fn add(self, other: Self) -> Result<Tally, MatrixError> {
        match self.0.checked_add(other.0) {
            Some(v) => Ok(Tally(v)),
            None => Err(MatrixError::new(MatrixError::InvalidOperation)),
        }
    }
}

#[test]
fn add_trait_can_be_implemented() {
    assert_eq!(Tally(2).add(Tally(3)).unwrap().0, 5);
    assert_eq!(Tally(i64::MAX).add(Tally(1)).err(), Some(MatrixError::InvalidOperation));
}

#[test]
fn render_two_by_two() {
    let m = built(2, 2, vec![vec![1.0, 2.0], vec![3.0, 4.0]]);
    assert_eq!(texts(&m).render(), "|1 2|\n|3 4|");
}

#[test]
fn render_single_row_and_fractions() {
    let m = built(1, 3, vec![vec![1.5, -2.0, 0.25]]);
    assert_eq!(texts(&m).render(), "|1.5 -2 0.25|");
}

#[test]
fn render_empty_matrix() {
    let m: Matrix<String> = Matrix { rows: 0, cols: 0, data: Vec::new() };
    assert_eq!(m.render(), "||");
}

#[test]
fn error_new_and_messages() {
    assert_eq!(MatrixError::new(MatrixError::DataMismatch), MatrixError::DataMismatch);
    assert_eq!(
        MatrixError::InvalidMatrixSize.message(),
        "InvalidMatrixSize: Invalid matrix size, rows and columns must be greater than zero"
    );
    assert_eq!(
        MatrixError::DimensionMismatch.message(),
        "DimensionMismatch: Matrix dimensions do not match"
    );
    assert_eq!(
        MatrixError::InvalidOperation.message(),
        "InvalidOperation: Invalid operation on matrices"
    );
    assert_eq!(
        MatrixError::DataMismatch.message(),
        "DataMismatch: Data must have the same dimensions as the matrix"
    );
}
