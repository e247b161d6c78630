use oclmat::error::OpError;
use oclmat::kernel::KernelArg;
use oclmat::kernel::KernelName;
use oclmat::kernel::OutShape;
use oclmat::kernel::WorkSize;
use oclmat::matrix::Matrix;
use oclmat::ops::hadamard;
use oclmat::ops::matmul;
use oclmat::ops::multiply_by_scalar;
use oclmat::ops::sigmoid;
use oclmat::ops::transpose;

fn mat_of(rows: usize, cols: usize, elems: &[f32]) -> Matrix {
    let bits: Vec<u32> = elems.iter().map(|x| x.to_bits()).collect();
    Matrix::from_flat(rows, cols, bits).expect("shape and data length must agree")
}

#[test]
fn matmul_plan_small() {
    // A: 2x3, B: 3x2 -> C: 2x2
    let a = mat_of(2, 3, &[1., 2., 3., 4., 5., 6.]);
    let b = mat_of(3, 2, &[1., 1., 1., 1., 1., 1.]);
    let c = matmul(&a, &b).expect("conformant shapes must plan");
    assert_eq!(c.name, KernelName::Matmul);
    assert_eq!(c.name.as_str(), "matmul");
    assert_eq!(
        c.args,
        vec![
            KernelArg::InputBuffer(0),
            KernelArg::InputBuffer(1),
            KernelArg::OutputBuffer,
            KernelArg::DimScalar(3),
            KernelArg::DimScalar(2),
        ]
    );
    assert_eq!(c.global_work, WorkSize::Two(2, 2));
    assert_eq!(c.local_work, None);
    assert_eq!(c.input_lens, vec![6, 6]);
    assert_eq!(c.out_shape, OutShape::Grid(2, 2));
    assert_eq!(c.out_shape.len(), 4);
}

#[test]
fn matmul_rejects_inner_dimension_mismatch() {
    let a = mat_of(2, 3, &[0.; 6]);
    let b = mat_of(2, 3, &[0.; 6]);
    let e = matmul(&a, &b).expect_err("inner dimensions differ");
    assert_eq!(
        e,
        OpError::ShapeMismatch { a_rows: 2, a_cols: 3, b_rows: 2, b_cols: 3 }
    );
}

#[test]
fn hadamard_plan_equal_shapes() {
    let a = mat_of(2, 3, &[1., 2., 3., 4., 5., 6.]);
    let b = mat_of(2, 3, &[2., 1., 0.666, 0.5, 1., 0.333]);
    let c = hadamard(&a, &b).expect("equal shapes must plan");
    assert_eq!(c.name.as_str(), "hadamard");
    assert_eq!(
        c.args,
        vec![
            KernelArg::InputBuffer(0),
            KernelArg::InputBuffer(1),
            KernelArg::OutputBuffer,
        ]
    );
    assert_eq!(c.global_work, WorkSize::One(6));
    assert_eq!(c.local_work, Some(WorkSize::One(6)));
    assert_eq!(c.input_lens, vec![6, 6]);
    assert_eq!(c.out_shape, OutShape::Grid(2, 3));
}

#[test]
fn hadamard_rejects_mismatched_shapes_before_any_device_work() {
    // A: 2x3 against B: 3x2 must give a shape error, not a device error.
    let a = mat_of(2, 3, &[0.; 6]);
    let b = mat_of(3, 2, &[0.; 6]);
    let e = hadamard(&a, &b).expect_err("shapes differ");
    assert!(matches!(e, OpError::ShapeMismatch { .. }));
    assert_eq!(
        e,
        OpError::ShapeMismatch { a_rows: 2, a_cols: 3, b_rows: 3, b_cols: 2 }
    );
}

#[test]
fn multiply_by_scalar_plan() {
    let v: Vec<u32> = vec![1.0f32.to_bits(); 20];
    let coeff = 0.5f32.to_bits();
    let c = multiply_by_scalar(&v, coeff);
    assert_eq!(c.name.as_str(), "multiply_by_scalar");
    // the coefficient comes first, then the input, then the named result
    assert_eq!(
        c.args,
        vec![
            KernelArg::CoeffScalar(coeff),
            KernelArg::InputBuffer(0),
            KernelArg::OutputBuffer,
        ]
    );
    assert_eq!(c.global_work, WorkSize::One(20));
    assert_eq!(c.local_work, None);
    assert_eq!(c.input_lens, vec![20]);
    assert_eq!(c.out_shape, OutShape::Flat(20));
    assert_eq!(c.out_shape.len(), 20);
}

#[test]
fn transpose_plan_swaps_result_shape() {
    let a = mat_of(2, 3, &[1., 2., 3., 4., 5., 6.]);
    let c = transpose(&a);
    assert_eq!(c.name.as_str(), "transpose");
    assert_eq!(
        c.args,
        vec![
            KernelArg::InputBuffer(0),
            KernelArg::OutputBuffer,
            KernelArg::DimScalar(2),
            KernelArg::DimScalar(3),
        ]
    );
    assert_eq!(c.global_work, WorkSize::Two(2, 3));
    assert_eq!(c.local_work, Some(WorkSize::Two(2, 3)));
    assert_eq!(c.input_lens, vec![6]);
    assert_eq!(c.out_shape, OutShape::Grid(3, 2));
}

#[test]
fn sigmoid_plan_keeps_shape() {
    let a = mat_of(2, 3, &[0.; 6]);
    let c = sigmoid(&a);
    assert_eq!(c.name.as_str(), "sigmoid");
    assert_eq!(
        c.args,
        vec![KernelArg::InputBuffer(0), KernelArg::OutputBuffer]
    );
    assert_eq!(c.global_work, WorkSize::One(6));
    assert_eq!(c.local_work, None);
    assert_eq!(c.input_lens, vec![6]);
    assert_eq!(c.out_shape, OutShape::Grid(2, 3));
}
