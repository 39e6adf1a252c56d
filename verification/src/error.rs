//! Typed errors surfaced by validation and assembly.
//!
//! Every failure is reported to the immediate caller; nothing is retried or
//! silently downgraded at this layer.

use vstd::prelude::*;
use crate::dtype::DType;

verus! {

#[derive(Clone, Copy, Debug, PartialEq, Eq, Structural)]
pub enum OperationError {
    /// Wrong operand count: `got` operands where between `min` and `max`
    /// (inclusive) were required.
    InvariantViolation { got: usize, min: usize, max: usize },
    /// A partition of the binding list disagrees with the entry count the
    /// declared layout for that group expects.
    InconsistentBindings { group: usize, expected: usize, got: usize },
    /// A kernel name was requested that no generated shader source backs.
    KernelNotFound,
    /// A data type with no defined byte interpretation for the request.
    UnsupportedDType(DType),
}

impl OperationError {
    /// A short diagnostic label for the error, for hosts that log failures.
    pub fn describe(&self) -> (r: &'static str)
        ensures
            r@ == self.spec_describe(),
    {
        match self {
            OperationError::InvariantViolation { .. } => "invariant violation",
            OperationError::InconsistentBindings { .. } => "inconsistent bind group",
            OperationError::KernelNotFound => "kernel not found",
            OperationError::UnsupportedDType(_) => "unsupported data type",
        }
    }

    pub open spec fn spec_describe(self) -> Seq<char> {
        match self {
            OperationError::InvariantViolation { .. } => "invariant violation"@,
            OperationError::InconsistentBindings { .. } => "inconsistent bind group"@,
            OperationError::KernelNotFound => "kernel not found"@,
            OperationError::UnsupportedDType(_) => "unsupported data type"@,
        }
    }
}

/// Operand-count validation shared by the operation descriptors: `Ok` exactly
/// when `min <= srcs.len() <= max`.
pub fn check_input_arity_range<T>(srcs: &[T], min: usize, max: usize) -> (r: Result<
    (),
    OperationError,
>)
    ensures
        r is Ok <==> min <= srcs@.len() <= max,
        r is Err ==> r == Err::<(), OperationError>(
            OperationError::InvariantViolation { got: srcs@.len() as usize, min, max },
        ),
{
    let n = srcs.len();
    if min <= n && n <= max {
        Ok(())
    } else {
        Err(OperationError::InvariantViolation { got: n, min, max })
    }
}

} // verus!
