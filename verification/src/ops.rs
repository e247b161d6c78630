//! Operation facades.
//!
//! One planner per offloaded operation. Each validates its operands' shapes,
//! then fixes every decision of the dispatch — kernel name, argument order,
//! buffer lengths, work-size geometry, result shape — as a [`KernelCall`].
//! Shape violations are rejected here, before any device interaction can
//! happen; the caller only ever executes a plan whose geometry is already
//! consistent with its output.

use vstd::prelude::*;

use crate::error::OpError;
use crate::kernel::KernelArg;
use crate::kernel::KernelCall;
use crate::kernel::KernelName;
use crate::kernel::OutShape;
use crate::kernel::WorkSize;
use crate::matrix::Matrix;

verus! {

/// Plans the matrix product of an `n x m` and an `m x k` operand.
///
/// The dispatch geometry is the output-oriented `(n, k)`: one work-item per
/// element of the `n x k` result, with the shared dimension `m` passed to
/// the kernel as a scalar. Operands whose inner dimensions differ are
/// rejected before any device work.
pub fn matmul(a: &Matrix, b: &Matrix) -> (r: Result<KernelCall, OpError>)
    requires
        a.wf(),
        b.wf(),
    ensures
        match r {
            Ok(c) => {
                &&& a.cols == b.rows
                &&& c.name == KernelName::Matmul
                &&& c.args@ == seq![
                    KernelArg::InputBuffer(0),
                    KernelArg::InputBuffer(1),
                    KernelArg::OutputBuffer,
                    KernelArg::DimScalar(a.cols),
                    KernelArg::DimScalar(b.cols),
                ]
                &&& c.global_work == WorkSize::Two(a.rows, b.cols)
                &&& c.local_work is None
                &&& c.input_lens@.len() == 2
                &&& c.input_lens@[0] == a.data@.len()
                &&& c.input_lens@[1] == b.data@.len()
                &&& c.out_shape == OutShape::Grid(a.rows, b.cols)
                &&& c.geometry_matches_output()
            },
            Err(e) => {
                &&& a.cols != b.rows
                &&& e == (OpError::ShapeMismatch {
                    a_rows: a.rows,
                    a_cols: a.cols,
                    b_rows: b.rows,
                    b_cols: b.cols,
                })
            },
        },
{
    if a.cols != b.rows {
        return Err(
            OpError::ShapeMismatch {
                a_rows: a.rows,
                a_cols: a.cols,
                b_rows: b.rows,
                b_cols: b.cols,
            },
        );
    }
    let mut args: Vec<KernelArg> = Vec::new();
    args.push(KernelArg::InputBuffer(0));
    args.push(KernelArg::InputBuffer(1));
    args.push(KernelArg::OutputBuffer);
    args.push(KernelArg::DimScalar(a.cols));
    args.push(KernelArg::DimScalar(b.cols));
    let mut input_lens: Vec<usize> = Vec::new();
    input_lens.push(a.data.len());
    input_lens.push(b.data.len());
    Ok(
        KernelCall {
            name: KernelName::Matmul,
            args,
            global_work: WorkSize::Two(a.rows, b.cols),
            local_work: None,
            input_lens,
            out_shape: OutShape::Grid(a.rows, b.cols),
        },
    )
}

/// Plans the elementwise product of two equal-shape matrices.
///
/// A 1-D dispatch with one work-item per element; both the global and the
/// local geometry are the flattened element count. Operands of different
/// shape are rejected before any device work.
pub fn hadamard(a: &Matrix, b: &Matrix) -> (r: Result<KernelCall, OpError>)
    requires
        a.wf(),
        b.wf(),
    ensures
        match r {
            Ok(c) => {
                &&& a.rows == b.rows && a.cols == b.cols
                &&& c.name == KernelName::Hadamard
                &&& c.args@ == seq![
                    KernelArg::InputBuffer(0),
                    KernelArg::InputBuffer(1),
                    KernelArg::OutputBuffer,
                ]
                &&& c.global_work == WorkSize::One(a.data.len() as usize)
                &&& c.local_work == Some(WorkSize::One(a.data.len() as usize))
                &&& c.input_lens@.len() == 2
                &&& c.input_lens@[0] == a.data@.len()
                &&& c.input_lens@[1] == b.data@.len()
                &&& c.out_shape == OutShape::Grid(a.rows, a.cols)
                &&& c.geometry_matches_output()
            },
            Err(e) => {
                &&& !(a.rows == b.rows && a.cols == b.cols)
                &&& e == (OpError::ShapeMismatch {
                    a_rows: a.rows,
                    a_cols: a.cols,
                    b_rows: b.rows,
                    b_cols: b.cols,
                })
            },
        },
{
    if a.rows != b.rows || a.cols != b.cols {
        return Err(
            OpError::ShapeMismatch {
                a_rows: a.rows,
                a_cols: a.cols,
                b_rows: b.rows,
                b_cols: b.cols,
            },
        );
    }
    let len = a.data.len();
    let mut args: Vec<KernelArg> = Vec::new();
    args.push(KernelArg::InputBuffer(0));
    args.push(KernelArg::InputBuffer(1));
    args.push(KernelArg::OutputBuffer);
    let mut input_lens: Vec<usize> = Vec::new();
    input_lens.push(len);
    input_lens.push(b.data.len());
    Ok(
        KernelCall {
            name: KernelName::Hadamard,
            args,
            global_work: WorkSize::One(len),
            local_work: Some(WorkSize::One(len)),
            input_lens,
            out_shape: OutShape::Grid(a.rows, a.cols),
        },
    )
}

/// Plans scaling a flat vector by a single-precision coefficient, given as
/// its bit pattern.
///
/// The kernel takes the coefficient first, then the input buffer, then the
/// output buffer; the output buffer is the kernel's named `result`
/// parameter, the one argument bound by name rather than position.
pub fn multiply_by_scalar(input: &Vec<u32>, coeff_bits: u32) -> (c: KernelCall)
    ensures
        c.name == KernelName::MultiplyByScalar,
        c.args@ == seq![
            KernelArg::CoeffScalar(coeff_bits),
            KernelArg::InputBuffer(0),
            KernelArg::OutputBuffer,
        ],
        c.global_work == WorkSize::One(input.len() as usize),
        c.local_work is None,
        c.input_lens@.len() == 1,
        c.input_lens@[0] == input@.len(),
        c.out_shape == OutShape::Flat(input.len() as usize),
        c.geometry_matches_output(),
{
    let len = input.len();
    let mut args: Vec<KernelArg> = Vec::new();
    args.push(KernelArg::CoeffScalar(coeff_bits));
    args.push(KernelArg::InputBuffer(0));
    args.push(KernelArg::OutputBuffer);
    let mut input_lens: Vec<usize> = Vec::new();
    input_lens.push(len);
    KernelCall {
        name: KernelName::MultiplyByScalar,
        args,
        global_work: WorkSize::One(len),
        local_work: None,
        input_lens,
        out_shape: OutShape::Flat(len),
    }
}

/// Plans the transpose of an `n x m` matrix into an `m x n` result.
///
/// A 2-D dispatch over the input's `(n, m)` grid, with both dimensions also
/// passed to the kernel as scalars; the flat result is read back as `m x n`.
pub fn transpose(a: &Matrix) -> (c: KernelCall)
    requires
        a.wf(),
    ensures
        c.name == KernelName::Transpose,
        c.args@ == seq![
            KernelArg::InputBuffer(0),
            KernelArg::OutputBuffer,
            KernelArg::DimScalar(a.rows),
            KernelArg::DimScalar(a.cols),
        ],
        c.global_work == WorkSize::Two(a.rows, a.cols),
        c.local_work == Some(WorkSize::Two(a.rows, a.cols)),
        c.input_lens@.len() == 1,
        c.input_lens@[0] == a.data@.len(),
        c.out_shape == OutShape::Grid(a.cols, a.rows),
        c.geometry_matches_output(),
{
    proof {
        assert(a.rows * a.cols == a.cols * a.rows) by (nonlinear_arith);
    }
    let mut args: Vec<KernelArg> = Vec::new();
    args.push(KernelArg::InputBuffer(0));
    args.push(KernelArg::OutputBuffer);
    args.push(KernelArg::DimScalar(a.rows));
    args.push(KernelArg::DimScalar(a.cols));
    let mut input_lens: Vec<usize> = Vec::new();
    input_lens.push(a.data.len());
    KernelCall {
        name: KernelName::Transpose,
        args,
        global_work: WorkSize::Two(a.rows, a.cols),
        local_work: Some(WorkSize::Two(a.rows, a.cols)),
        input_lens,
        out_shape: OutShape::Grid(a.cols, a.rows),
    }
}

/// Plans the elementwise activation of a matrix.
///
/// A 1-D dispatch with one work-item per element; the result keeps the
/// input's shape. A single operand carries its own shape, so there is
/// nothing to mismatch and planning cannot fail.
pub fn sigmoid(input: &Matrix) -> (c: KernelCall)
    requires
        input.wf(),
    ensures
        c.name == KernelName::Sigmoid,
        c.args@ == seq![KernelArg::InputBuffer(0), KernelArg::OutputBuffer],
        c.global_work == WorkSize::One(input.data.len() as usize),
        c.local_work is None,
        c.input_lens@.len() == 1,
        c.input_lens@[0] == input.data@.len(),
        c.out_shape == OutShape::Grid(input.rows, input.cols),
        c.geometry_matches_output(),
{
    let len = input.data.len();
    let mut args: Vec<KernelArg> = Vec::new();
    args.push(KernelArg::InputBuffer(0));
    args.push(KernelArg::OutputBuffer);
    let mut input_lens: Vec<usize> = Vec::new();
    input_lens.push(len);
    KernelCall {
        name: KernelName::Sigmoid,
        args,
        global_work: WorkSize::One(len),
        local_work: None,
        input_lens,
        out_shape: OutShape::Grid(input.rows, input.cols),
    }
}

} // verus!
