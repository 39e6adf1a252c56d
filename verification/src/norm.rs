//! The normalization operation descriptor: operand validation, output
//! inference, source ordering, vectorization selection, dispatch arithmetic,
//! bind group layout and metadata for layer normalization.

use vstd::prelude::*;
use vstd::bytes::{spec_u32_to_le_bytes, u32_to_le_bytes};
use crate::error::{OperationError, check_input_arity_range};
use crate::gpu::{BindGroupLayoutDescriptor, WorkgroupCount};
use crate::kernel::KernelElement;
use crate::shape::numel_of;
use crate::tensor::{StorageView, Tensor};

verus! {

/// Layer normalization over the trailing dimension, with a learned scale and
/// an optional bias. `eps_bits` carries the IEEE 754 bit pattern of the
/// numeric-stability epsilon; this layer never computes with it, it only
/// places it in the metadata value.
pub struct LayerNorm {
    pub scale: Tensor,
    pub bias: Option<Tensor>,
    pub eps_bits: u32,
}

impl LayerNorm {
    pub fn new(scale: Tensor, bias: Option<Tensor>, eps_bits: u32) -> (r: Self)
        ensures
            r.scale == scale,
            r.bias == bias,
            r.eps_bits == eps_bits,
    {
        LayerNorm { scale, bias, eps_bits }
    }

    /// Operand validation: normalization takes 2 or 3 operands — the input,
    /// the scale, and an optional bias.
    pub fn check_invariants(srcs: &[Tensor]) -> (r: Result<(), OperationError>)
        ensures
            r is Ok <==> 2 <= srcs@.len() <= 3,
            r is Err ==> r == Err::<(), OperationError>(
                OperationError::InvariantViolation { got: srcs@.len() as usize, min: 2, max: 3 },
            ),
    {
        check_input_arity_range(srcs, 2, 3)
    }

    /// Output inference: layer normalization preserves the primary input's
    /// view — same shape, element type and device.
    pub fn infer_output(&self, srcs: &[Tensor]) -> (r: Result<StorageView, OperationError>)
        requires
            srcs@.len() >= 1,
        ensures
            r matches Ok(v) && v.shape@ == srcs@[0].storage_view.shape@ && v.dtype
                == srcs@[0].storage_view.dtype && v.device == srcs@[0].storage_view.device,
    {
        Ok(vstd::slice::slice_index_get(srcs, 0).storage_view().clone())
    }
}

/// The closed set of normalization operations.
pub enum NormOp {
    LayerNorm(LayerNorm),
}

impl NormOp {
    /// The stable stem the generated kernels of this operation are named by.
    pub fn kernel_name(&self) -> (r: &'static str)
        ensures
            r@ == "layernorm"@,
    {
        match self {
            NormOp::LayerNorm(_) => "layernorm",
        }
    }
}

/// Vectorization selection from a trailing dimension: divisible by 4 takes
/// the four-wide kernel, else divisible by 2 the two-wide one, else scalar.
pub open spec fn spec_kernel_element_for(n: int) -> KernelElement {
    if n % 4 == 0 {
        KernelElement::Vec4
    } else if n % 2 == 0 {
        KernelElement::Vec2
    } else {
        KernelElement::Scalar
    }
}

/// Law: vectorization selection is total and deterministic. For every
/// trailing dimension the three guards — divisible by four; even but not
/// divisible by four; odd — cover every case, exclude one another, and each
/// pins the selected width.
pub proof fn lemma_kernel_element_total(n: int)
    requires
        n >= 1,
    ensures
        (n % 4 == 0) || (n % 4 != 0 && n % 2 == 0) || (n % 2 != 0),
        !((n % 4 == 0) && (n % 4 != 0 && n % 2 == 0)),
        !((n % 4 == 0) && (n % 2 != 0)),
        !((n % 4 != 0 && n % 2 == 0) && (n % 2 != 0)),
        n % 4 == 0 ==> spec_kernel_element_for(n) == KernelElement::Vec4,
        n % 4 != 0 && n % 2 == 0 ==> spec_kernel_element_for(n) == KernelElement::Vec2,
        n % 2 != 0 ==> spec_kernel_element_for(n) == KernelElement::Scalar,
{
    assert(n % 4 == 0 ==> n % 2 == 0) by (nonlinear_arith);
}

/// A normalization bound to its primary input tensor.
pub struct Norm {
    pub input: Tensor,
    pub op: NormOp,
}

impl Norm {
    pub fn new(input: Tensor, op: NormOp) -> (r: Self)
        ensures
            r.input == input,
            r.op == op,
    {
        Norm { input, op }
    }

    pub fn name(&self) -> (r: &'static str)
        ensures
            r@ == "layernorm"@,
    {
        self.op.kernel_name()
    }

    pub fn op(&self) -> (r: &NormOp)
        ensures
            r == &self.op,
    {
        &self.op
    }

    /// The scale tensor of the wrapped operation.
    pub open spec fn spec_scale(self) -> Tensor {
        match self.op {
            NormOp::LayerNorm(ln) => ln.scale,
        }
    }

    /// The optional bias tensor of the wrapped operation.
    pub open spec fn spec_bias(self) -> Option<Tensor> {
        match self.op {
            NormOp::LayerNorm(ln) => ln.bias,
        }
    }

    /// The epsilon bit pattern of the wrapped operation.
    pub open spec fn spec_eps_bits(self) -> u32 {
        match self.op {
            NormOp::LayerNorm(ln) => ln.eps_bits,
        }
    }

    /// How many operand tensors are bound.
    pub open spec fn spec_arity(self) -> int {
        if self.spec_bias() is Some {
            3
        } else {
            2
        }
    }

    /// The ordered operand tensors actually bound to the kernel: the input,
    /// the scale, then the bias only if present. This order must match the
    /// generated shader's binding order exactly.
    pub fn srcs(&self) -> (r: Vec<&Tensor>)
        ensures
            r@.len() == self.spec_arity(),
            *r@[0] == self.input,
            *r@[1] == self.spec_scale(),
            self.spec_bias() matches Some(b) ==> *r@[2] == b,
    {
        let mut v: Vec<&Tensor> = Vec::new();
        v.push(&self.input);
        match &self.op {
            NormOp::LayerNorm(ln) => {
                v.push(&ln.scale);
                match &ln.bias {
                    Some(b) => {
                        v.push(b);
                    },
                    None => {},
                }
            },
        }
        v
    }

    /// The kernel-name stem used to look up the generated shader.
    pub fn kernel_name(&self) -> (r: &'static str)
        ensures
            r@ == "layernorm"@,
    {
        match self.op {
            NormOp::LayerNorm(_) => "layernorm",
        }
    }

    /// Trailing dimension of the input, which drives vectorization and the
    /// reduction-length metadata.
    pub open spec fn spec_trailing(self) -> int {
        let dims = self.input.storage_view.shape@;
        dims[dims.len() - 1] as int
    }

    /// Second-to-last dimension of the input: the row count of the
    /// reduction.
    pub open spec fn spec_rows(self) -> int {
        let dims = self.input.storage_view.shape@;
        dims[dims.len() - 2] as int
    }

    /// Select the vectorization width from the input's trailing dimension:
    /// divisible by 4 takes Vec4, else divisible by 2 takes Vec2, else
    /// Scalar. The choice also selects which derived reduction lengths the
    /// metadata carries.
    pub fn kernel_element(&self, _dst: &Tensor) -> (r: KernelElement)
        requires
            self.input.storage_view.shape@.len() >= 1,
            self.spec_trailing() <= u32::MAX,
        ensures
            r == spec_kernel_element_for(self.spec_trailing()),
    {
        let rank = self.input.rank();
        let n = self.input.shape().dim(rank - 1);
        if n % 4 == 0 {
            KernelElement::Vec4
        } else if n % 2 == 0 {
            KernelElement::Vec2
        } else {
            KernelElement::Scalar
        }
    }

    /// The flattened count of all leading (batch) dimensions of the input:
    /// every dimension before the trailing two.
    pub open spec fn spec_stacks(self) -> int {
        let dims = self.input.storage_view.shape@;
        numel_of(dims.subrange(0, dims.len() - 2))
    }

    /// Dispatch arithmetic for a row-wise reduction: one workgroup dimension
    /// covers the row count, one the flattened batch count, and the third is
    /// one.
    pub fn calculate_dispatch(&self, _dst: &Tensor) -> (r: Result<WorkgroupCount, OperationError>)
        requires
            self.input.storage_view.shape@.len() >= 2,
            self.spec_rows() <= u32::MAX,
            self.spec_stacks() <= u32::MAX,
        ensures
            r == Ok::<WorkgroupCount, OperationError>(
                WorkgroupCount {
                    x: self.spec_rows() as u32,
                    y: self.spec_stacks() as u32,
                    z: 1u32,
                },
            ),
    {
        let rank = self.input.rank();
        let m = self.input.shape().dim(rank - 2);
        proof {
            crate::shape::lemma_numel_nonneg(
                self.input.storage_view.shape@.subrange(0, rank - 2),
            );
        }
        let stacks = self.input.shape().numel_range(0, rank - 2);
        Ok(WorkgroupCount { x: m as u32, y: stacks as u32, z: 1u32 })
    }

    /// Bind group layout of a normalization: one read-only binding per
    /// operand actually bound — input, scale, and the bias when present —
    /// plus a separate destination binding, omitted when the operation
    /// writes in place.
    pub fn storage_bind_group_layout(&self, inplace: bool) -> (r: Result<
        BindGroupLayoutDescriptor,
        OperationError,
    >)
        ensures
            r == Ok::<BindGroupLayoutDescriptor, OperationError>(
                BindGroupLayoutDescriptor {
                    n_sources: self.spec_arity() as usize,
                    separate_dst: !inplace,
                },
            ),
    {
        let n_sources: usize = match &self.op {
            NormOp::LayerNorm(ln) => {
                if ln.bias.is_some() {
                    3
                } else {
                    2
                }
            },
        };
        Ok(BindGroupLayoutDescriptor { n_sources, separate_dst: !inplace })
    }

    /// Metadata production: the row count, the trailing (reduction) length,
    /// its half and its quarter — precomputed on the host so the kernel's
    /// hot path never divides — and the epsilon bit pattern.
    pub fn metadata(&self, _dst: &Tensor, _kernel_element: &KernelElement) -> (r: Result<
        NormMeta,
        OperationError,
    >)
        requires
            self.input.storage_view.shape@.len() >= 2,
            self.spec_rows() <= u32::MAX,
            self.spec_trailing() <= u32::MAX,
        ensures
            r matches Ok(m) && m.m == self.spec_rows() && m.n == self.spec_trailing() && m.nd2
                == self.spec_trailing() / 2 && m.nd4 == self.spec_trailing() / 4 && m.eps_bits
                == self.spec_eps_bits(),
    {
        let rank = self.input.rank();
        let m = self.input.shape().dim(rank - 2) as u32;
        let n = self.input.shape().dim(rank - 1) as u32;
        let nd2 = n / 2;
        let nd4 = n / 4;
        let eps_bits = match &self.op {
            NormOp::LayerNorm(ln) => ln.eps_bits,
        };
        Ok(NormMeta { m, n, nd2, nd4, eps_bits })
    }
}

/// The uniform metadata block of the normalization kernels. Its byte image
/// is part of the GPU contract: the fields are laid out in declaration
/// order, four little-endian bytes each, with no padding — rows, columns,
/// half columns, quarter columns, then the epsilon bit pattern.
#[derive(Clone, Copy, Debug, PartialEq, Eq, Structural)]
pub struct NormMeta {
    pub m: u32,
    pub n: u32,
    pub nd2: u32,
    pub nd4: u32,
    pub eps_bits: u32,
}

impl NormMeta {
    pub fn new(m: u32, n: u32, nd2: u32, nd4: u32, eps_bits: u32) -> (r: Self)
        ensures
            r == (NormMeta { m, n, nd2, nd4, eps_bits }),
    {
        NormMeta { m, n, nd2, nd4, eps_bits }
    }

    /// The exact byte image the corresponding shader's uniform block
    /// expects.
    pub open spec fn spec_bytes(self) -> Seq<u8> {
        spec_u32_to_le_bytes(self.m) + spec_u32_to_le_bytes(self.n) + spec_u32_to_le_bytes(
            self.nd2,
        ) + spec_u32_to_le_bytes(self.nd4) + spec_u32_to_le_bytes(self.eps_bits)
    }

    /// Serialize the metadata for the uniform buffer: field order and the
    /// absence of padding are part of the contract, not incidental.
    pub fn to_bytes(&self) -> (r: Vec<u8>)
        ensures
            r@ == self.spec_bytes(),
            r@.len() == 20,
    {
        let mut out: Vec<u8> = Vec::new();
        let mut b = u32_to_le_bytes(self.m);
        out.append(&mut b);
        let mut b = u32_to_le_bytes(self.n);
        out.append(&mut b);
        let mut b = u32_to_le_bytes(self.nd2);
        out.append(&mut b);
        let mut b = u32_to_le_bytes(self.nd4);
        out.append(&mut b);
        let mut b = u32_to_le_bytes(self.eps_bits);
        out.append(&mut b);
        proof {
            assert(out@ =~= self.spec_bytes());
        }
        out
    }
}

} // verus!
