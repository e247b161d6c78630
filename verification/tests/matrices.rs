use oclmat::error::OpError;
use oclmat::matrix::Matrix;

fn mat_of(rows: usize, cols: usize, elems: &[f32]) -> Matrix {
    let bits: Vec<u32> = elems.iter().map(|x| x.to_bits()).collect();
    Matrix::from_flat(rows, cols, bits).expect("shape and data length must agree")
}

#[test]
fn from_flat_accepts_exact_length() {
    let m = Matrix::from_flat(2, 3, vec![10, 20, 30, 40, 50, 60]).unwrap();
    assert_eq!(m.rows, 2);
    assert_eq!(m.cols, 3);
    assert_eq!(m.get(0, 0), 10);
    assert_eq!(m.get(0, 2), 30);
    assert_eq!(m.get(1, 0), 40);
    assert_eq!(m.get(1, 2), 60);
}

#[test]
fn from_flat_rejects_wrong_length() {
    let e = Matrix::from_flat(2, 3, vec![0; 5]).expect_err("five words cannot fill 2x3");
    assert_eq!(e, OpError::ReshapeMismatch { rows: 2, cols: 3, len: 5 });
}

#[test]
fn from_flat_accepts_empty() {
    let m = Matrix::from_flat(0, 7, Vec::new()).unwrap();
    assert_eq!(m.rows, 0);
    assert_eq!(m.cols, 7);
}

#[test]
fn transpose_permutes_elements() {
    let m = mat_of(2, 3, &[1., 2., 3., 4., 5., 6.]);
    let t = m.transpose();
    assert_eq!(t.rows, 3);
    assert_eq!(t.cols, 2);
    for i in 0..2 {
        for j in 0..3 {
            assert_eq!(t.get(j, i), m.get(i, j));
        }
    }
    assert_eq!(f32::from_bits(t.get(0, 1)), 4.0);
    assert_eq!(f32::from_bits(t.get(2, 0)), 3.0);
}

#[test]
fn transpose_twice_is_identity() {
    let m = mat_of(3, 4, &[
        1., 2., 3., 4.,
        5., 6., 7., 8.,
        9., 10., 11., 12.,
    ]);
    let back = m.transpose().transpose();
    assert_eq!(back.rows, m.rows);
    assert_eq!(back.cols, m.cols);
    assert_eq!(back.data, m.data);
}

#[test]
fn transpose_of_row_vector() {
    let m = mat_of(1, 4, &[1., 2., 3., 4.]);
    let t = m.transpose();
    assert_eq!(t.rows, 4);
    assert_eq!(t.cols, 1);
    assert_eq!(t.data, m.data);
}
