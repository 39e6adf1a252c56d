//! Element data types of tensor storage.

use vstd::prelude::*;

verus! {

/// The closed set of element types a buffer can be declared to hold.
#[derive(Clone, Copy, Debug, PartialEq, Eq, Structural)]
pub enum DType {
    F32,
    F16,
    I32,
    U32,
}

impl DType {
    /// Width of one element in bytes.
    pub open spec fn spec_size(self) -> nat {
        match self {
            DType::F32 => 4,
            DType::F16 => 2,
            DType::I32 => 4,
            DType::U32 => 4,
        }
    }

    /// Width of one element in bytes.
    pub fn size_of(self) -> (r: usize)
        ensures
            r == self.spec_size(),
    {
        match self {
            DType::F32 => 4,
            DType::F16 => 2,
            DType::I32 => 4,
            DType::U32 => 4,
        }
    }
}

} // verus!
