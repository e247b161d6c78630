//! Verified orchestration layer for offloading dense matrix arithmetic to a
//! compute device.
//!
//! The library owns every decision that the offload protocol makes on the
//! host: validating operand shapes, deriving buffer lengths and work-size
//! geometry, laying out kernel argument lists, selecting a device by name,
//! and reshaping flat result buffers back into matrices. The device calls
//! themselves (buffer transfer, kernel enqueue) traffic in raw 32-bit floats
//! and live outside the library; a caller executes a [`kernel::KernelCall`]
//! plan against its device and hands the flat result back for reshaping.

pub mod device;
pub mod error;
pub mod kernel;
pub mod matrix;
pub mod ops;
