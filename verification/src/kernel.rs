//! Kernel invocation plans.
//!
//! A [`KernelCall`] is the complete description of one device dispatch: the
//! kernel's entry-point name, its ordered argument list, the work-size
//! geometry, the lengths of the input buffers to allocate and fill, and the
//! shape that the flat result buffer is to be read back into. The caller
//! that owns the device handle executes the plan verbatim; argument order
//! and geometry are fixed here, once, per operation.

use vstd::prelude::*;

verus! {

/// Entry-point names of the compiled kernel program.
#[derive(Clone, Copy, PartialEq, Eq, Structural, Debug)]
pub enum KernelName {
    Matmul,
    Hadamard,
    MultiplyByScalar,
    Transpose,
    Sigmoid,
}

impl KernelName {
    /// The name under which the kernel program exports this entry point.
    pub open spec fn spec_str(self) -> Seq<char> {
        match self {
            KernelName::Matmul => "matmul"@,
            KernelName::Hadamard => "hadamard"@,
            KernelName::MultiplyByScalar => "multiply_by_scalar"@,
            KernelName::Transpose => "transpose"@,
            KernelName::Sigmoid => "sigmoid"@,
        }
    }

    /// The exported entry-point name, as the device API expects it.
    pub fn as_str(self) -> (r: &'static str)
        ensures
            r@ == self.spec_str(),
    {
        match self {
            KernelName::Matmul => "matmul",
            KernelName::Hadamard => "hadamard",
            KernelName::MultiplyByScalar => "multiply_by_scalar",
            KernelName::Transpose => "transpose",
            KernelName::Sigmoid => "sigmoid",
        }
    }
}

/// The 1-D or 2-D iteration-space shape of a dispatch.
#[derive(Clone, Copy, PartialEq, Eq, Structural, Debug)]
pub enum WorkSize {
    One(usize),
    Two(usize, usize),
}

impl WorkSize {
    /// How many parallel work-items the geometry spawns.
    pub open spec fn items(self) -> int {
        match self {
            WorkSize::One(l) => l as int,
            WorkSize::Two(r, c) => r * c,
        }
    }
}

/// One argument of a kernel, in the kernel's declared parameter order.
///
/// Buffer arguments are stated by position: `InputBuffer(b)` is the device
/// buffer holding the call's `b`-th input, `OutputBuffer` the buffer the
/// kernel writes. `CoeffScalar` carries a single-precision coefficient as
/// its bit pattern.
#[derive(Clone, Copy, PartialEq, Eq, Structural, Debug)]
pub enum KernelArg {
    InputBuffer(usize),
    OutputBuffer,
    DimScalar(usize),
    CoeffScalar(u32),
}

/// The shape a flat result buffer is read back into.
#[derive(Clone, Copy, PartialEq, Eq, Structural, Debug)]
pub enum OutShape {
    /// A flat vector of the given length.
    Flat(usize),
    /// A row-major `rows x cols` matrix.
    Grid(usize, usize),
}

impl OutShape {
    /// Number of elements of the result buffer.
    pub open spec fn spec_len(self) -> int {
        match self {
            OutShape::Flat(l) => l as int,
            OutShape::Grid(r, c) => r * c,
        }
    }

    /// Number of elements of the result buffer.
    pub fn len(&self) -> (r: usize)
        requires
            self.spec_len() <= usize::MAX,
        ensures
            r == self.spec_len(),
    {
        match *self {
            OutShape::Flat(l) => l,
            OutShape::Grid(rw, cl) => match rw.checked_mul(cl) {
                Some(p) => p,
                None => 0,
            },
        }
    }
}

/// A complete, self-consistent description of one kernel dispatch.
#[derive(Clone, Debug)]
pub struct KernelCall {
    /// Which kernel entry point to invoke.
    pub name: KernelName,
    /// The kernel's arguments, in its declared parameter order.
    pub args: Vec<KernelArg>,
    /// Global work-size geometry of the dispatch.
    pub global_work: WorkSize,
    /// Local work-size geometry, where the operation pins one.
    pub local_work: Option<WorkSize>,
    /// Element count of each input buffer, in input order.
    pub input_lens: Vec<usize>,
    /// Shape of the result read back from the output buffer.
    pub out_shape: OutShape,
}

impl KernelCall {
    /// The dispatch geometry spawns exactly one work-item per element of the
    /// result buffer.
    pub open spec fn geometry_matches_output(self) -> bool {
        self.global_work.items() == self.out_shape.spec_len()
    }
}

} // verus!
