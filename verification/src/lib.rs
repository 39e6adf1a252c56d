//! Core of a tensor-compute runtime that turns logical numeric operations
//! into GPU compute-kernel dispatches.
//!
//! The pipeline has a build-time half and a run-time half. At build time the
//! kernel templates are rendered into one shader source per
//! (operation, vectorization) pair and collected into an immutable registry.
//! At run time an operation descriptor validates its operands, infers the
//! output view, selects a vectorization width and kernel, computes the 3-D
//! workgroup count and a fixed-layout metadata value, and the assembler turns
//! the operand storage into bind groups served by a create-or-reuse device
//! resource cache.

use vstd::prelude::*;

pub mod attention;
pub mod buffer;
pub mod compiled_op;
pub mod dtype;
pub mod error;
pub mod gpu;
pub mod kernel;
pub mod norm;
pub mod registry;
pub mod shape;
pub mod tensor;

pub use buffer::{RawCPUBuffer, RawGPUBuffer};
pub use compiled_op::CompiledOp;
pub use dtype::DType;
pub use error::OperationError;
pub use gpu::{DeviceCache, WorkgroupCount};
pub use kernel::KernelElement;
pub use norm::{LayerNorm, Norm, NormMeta, NormOp};
pub use registry::KernelRegistry;
pub use shape::Shape;
pub use tensor::Tensor;

verus! {

/// Capacity of one bind group: at most this many bindings per group.
pub const MAX_BINDINGS_PER_GROUP: usize = 4;

} // verus!
