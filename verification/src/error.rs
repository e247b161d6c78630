//! Host-side failures of the offload layer.
//!
//! Device-reported failures (buffer creation, kernel launch) belong to the
//! caller that owns the device handle; everything the host itself can decide
//! is reported through [`OpError`], before any device interaction happens.

use vstd::prelude::*;

verus! {

/// A failure detected on the host, before any work is submitted to a device.
#[derive(Clone, Copy, PartialEq, Eq, Structural, Debug)]
pub enum OpError {
    /// Operand shapes do not satisfy the operation's dimension contract.
    ShapeMismatch { a_rows: usize, a_cols: usize, b_rows: usize, b_cols: usize },
    /// No enumerated device name contains the requested pattern.
    NoMatchingDevice,
    /// A flat result buffer cannot be reinterpreted with the target shape.
    ReshapeMismatch { rows: usize, cols: usize, len: usize },
}

} // verus!
