//! Build-time kernel generation: the closed operation enumerations, the
//! vectorization widths, and the deterministic rendering of one shader
//! source per (operation, vectorization) pair.
//!
//! Rendering is a pure function of the operation and the width, so rerunning
//! generation always yields byte-identical sources. Kernels are named
//! `"<op>_<vectorization>"`; these names are the only valid registry keys.

use vstd::prelude::*;

verus! {

/// Vectorization width of a generated kernel: how many scalars one GPU
/// element groups.
#[derive(Clone, Copy, Debug, PartialEq, Eq, Structural)]
pub enum KernelElement {
    Scalar,
    Vec2,
    Vec4,
}

/// Scalar type a kernel computes in on the GPU.
#[derive(Clone, Copy, Debug, PartialEq, Eq, Structural)]
pub enum WgslDType {
    F32,
}

impl WgslDType {
    pub open spec fn spec_str(self) -> Seq<char> {
        match self {
            WgslDType::F32 => "f32"@,
        }
    }

    pub fn as_str(self) -> (r: &'static str)
        ensures
            r@ == self.spec_str(),
    {
        match self {
            WgslDType::F32 => "f32",
        }
    }
}

impl KernelElement {
    /// Number of scalars per element: Scalar is 1, Vec2 is 2, Vec4 is 4.
    pub open spec fn spec_size(self) -> nat {
        match self {
            KernelElement::Scalar => 1,
            KernelElement::Vec2 => 2,
            KernelElement::Vec4 => 4,
        }
    }

    pub fn as_size(self) -> (r: usize)
        ensures
            r == self.spec_size(),
    {
        match self {
            KernelElement::Scalar => 1,
            KernelElement::Vec2 => 2,
            KernelElement::Vec4 => 4,
        }
    }

    /// The suffix a kernel name carries for this width.
    pub open spec fn spec_suffix(self) -> Seq<char> {
        match self {
            KernelElement::Scalar => "scalar"@,
            KernelElement::Vec2 => "vec2"@,
            KernelElement::Vec4 => "vec4"@,
        }
    }

    pub fn suffix(self) -> (r: &'static str)
        ensures
            r@ == self.spec_suffix(),
    {
        match self {
            KernelElement::Scalar => "scalar",
            KernelElement::Vec2 => "vec2",
            KernelElement::Vec4 => "vec4",
        }
    }

    /// Decimal form of the width, as it is substituted into a template.
    pub open spec fn spec_size_str(self) -> Seq<char> {
        match self {
            KernelElement::Scalar => "1"@,
            KernelElement::Vec2 => "2"@,
            KernelElement::Vec4 => "4"@,
        }
    }

    pub fn size_str(self) -> (r: &'static str)
        ensures
            r@ == self.spec_size_str(),
    {
        match self {
            KernelElement::Scalar => "1",
            KernelElement::Vec2 => "2",
            KernelElement::Vec4 => "4",
        }
    }

    /// The GPU type for this width over the given scalar type, e.g.
    /// `vec4<f32>`.
    pub open spec fn spec_wgsl(self, dtype: WgslDType) -> Seq<char> {
        match self {
            KernelElement::Scalar => dtype.spec_str(),
            KernelElement::Vec2 => "vec2<"@ + dtype.spec_str() + ">"@,
            KernelElement::Vec4 => "vec4<"@ + dtype.spec_str() + ">"@,
        }
    }

    pub fn as_wgsl(self, dtype: WgslDType) -> (r: String)
        ensures
            r@ == self.spec_wgsl(dtype),
    {
        match self {
            KernelElement::Scalar => String::from_str(dtype.as_str()),
            KernelElement::Vec2 => String::from_str("vec2<").concat(dtype.as_str()).concat(">"),
            KernelElement::Vec4 => String::from_str("vec4<").concat(dtype.as_str()).concat(">"),
        }
    }
}

/// Elementwise binary operations.
#[derive(Clone, Copy, Debug, PartialEq, Eq, Structural)]
pub enum BinaryOp {
    Add,
    Sub,
    Mul,
    Div,
}

impl BinaryOp {
    pub open spec fn spec_name(self) -> Seq<char> {
        match self {
            BinaryOp::Add => "add"@,
            BinaryOp::Sub => "sub"@,
            BinaryOp::Mul => "mul"@,
            BinaryOp::Div => "div"@,
        }
    }

    pub open spec fn spec_symbol(self) -> Seq<char> {
        match self {
            BinaryOp::Add => "+"@,
            BinaryOp::Sub => "-"@,
            BinaryOp::Mul => "*"@,
            BinaryOp::Div => "/"@,
        }
    }

    /// The kernel-name stem and the infix symbol substituted into the
    /// binary template.
    pub fn mapping(self) -> (r: (&'static str, &'static str))
        ensures
            r.0@ == self.spec_name(),
            r.1@ == self.spec_symbol(),
    {
        match self {
            BinaryOp::Add => ("add", "+"),
            BinaryOp::Sub => ("sub", "-"),
            BinaryOp::Mul => ("mul", "*"),
            BinaryOp::Div => ("div", "/"),
        }
    }
}

/// Elementwise unary operations.
#[derive(Clone, Copy, Debug, PartialEq, Eq, Structural)]
pub enum UnaryOp {
    Gelu,
    Tanh,
    Exp,
    Log,
    Sin,
    Cos,
    Abs,
    Sqrt,
    Relu,
    Floor,
    Ceil,
}

impl UnaryOp {
    pub open spec fn spec_name(self) -> Seq<char> {
        match self {
            UnaryOp::Gelu => "gelu"@,
            UnaryOp::Tanh => "tanh"@,
            UnaryOp::Exp => "exp"@,
            UnaryOp::Log => "log"@,
            UnaryOp::Sin => "sin"@,
            UnaryOp::Cos => "cos"@,
            UnaryOp::Abs => "abs"@,
            UnaryOp::Sqrt => "sqrt"@,
            UnaryOp::Relu => "relu"@,
            UnaryOp::Floor => "floor"@,
            UnaryOp::Ceil => "ceil"@,
        }
    }

    pub fn name(self) -> (r: &'static str)
        ensures
            r@ == self.spec_name(),
    {
        match self {
            UnaryOp::Gelu => "gelu",
            UnaryOp::Tanh => "tanh",
            UnaryOp::Exp => "exp",
            UnaryOp::Log => "log",
            UnaryOp::Sin => "sin",
            UnaryOp::Cos => "cos",
            UnaryOp::Abs => "abs",
            UnaryOp::Sqrt => "sqrt",
            UnaryOp::Relu => "relu",
            UnaryOp::Floor => "floor",
            UnaryOp::Ceil => "ceil",
        }
    }

    /// The numeric routine the generated kernel binds to. The hyperbolic
    /// tangent binds to an overflow-safe clamped variant rather than the
    /// naive formula; every other operation binds to its own name.
    pub open spec fn spec_func(self) -> Seq<char> {
        match self {
            UnaryOp::Tanh => "safe_tanh"@,
            _ => self.spec_name(),
        }
    }

    pub fn kernel_func(self) -> (r: &'static str)
        ensures
            r@ == self.spec_func(),
    {
        match self {
            UnaryOp::Tanh => "safe_tanh",
            _ => self.name(),
        }
    }
}

/// Layout and reindexing operations.
#[derive(Clone, Copy, Debug, PartialEq, Eq, Structural)]
pub enum ReindexOp {
    Permute,
    Slice,
    Broadcast,
}

impl ReindexOp {
    pub open spec fn spec_name(self) -> Seq<char> {
        match self {
            ReindexOp::Permute => "permute"@,
            ReindexOp::Slice => "slice"@,
            ReindexOp::Broadcast => "broadcast"@,
        }
    }

    pub fn name(self) -> (r: &'static str)
        ensures
            r@ == self.spec_name(),
    {
        match self {
            ReindexOp::Permute => "permute",
            ReindexOp::Slice => "slice",
            ReindexOp::Broadcast => "broadcast",
        }
    }

    /// The per-variant index-remapping body substituted into the reindex
    /// template: permute remaps each destination axis through the stored
    /// permutation, slice passes the destination index through unchanged,
    /// and broadcast zeroes any axis whose source extent is 1.
    pub open spec fn spec_func_body(self) -> Seq<char> {
        match self {
            ReindexOp::Permute => (
            "\n    var src_index = vec4<u32>(0u);\n    src_index[metadata.perm[0]] = dst_index[0];\n    src_index[metadata.perm[1]] = dst_index[1];\n    src_index[metadata.perm[2]] = dst_index[2];\n    src_index[metadata.perm[3]] = dst_index[3];"@),
            ReindexOp::Slice => "\n    var src_index = dst_index;"@,
            ReindexOp::Broadcast => (
            "\n    var src_index = select(dst_index, vec4<u32>(0u), metadata.src_shape == vec4<u32>(1u));"@),
        }
    }

    pub fn func_body(self) -> (r: &'static str)
        ensures
            r@ == self.spec_func_body(),
    {
        match self {
            ReindexOp::Permute => (
            "\n    var src_index = vec4<u32>(0u);\n    src_index[metadata.perm[0]] = dst_index[0];\n    src_index[metadata.perm[1]] = dst_index[1];\n    src_index[metadata.perm[2]] = dst_index[2];\n    src_index[metadata.perm[3]] = dst_index[3];"),
            ReindexOp::Slice => "\n    var src_index = dst_index;",
            ReindexOp::Broadcast => (
            "\n    var src_index = select(dst_index, vec4<u32>(0u), metadata.src_shape == vec4<u32>(1u));"),
        }
    }
}

/// Normalization operations generated at build time.
#[derive(Clone, Copy, Debug, PartialEq, Eq, Structural)]
pub enum NormKernel {
    LayerNorm,
}

impl NormKernel {
    pub open spec fn spec_name(self) -> Seq<char> {
        match self {
            NormKernel::LayerNorm => "layernorm"@,
        }
    }

    pub fn name(self) -> (r: &'static str)
        ensures
            r@ == self.spec_name(),
    {
        match self {
            NormKernel::LayerNorm => "layernorm",
        }
    }

    /// Which precomputed reduction-length metadata field the kernel reads:
    /// the full row length for scalar kernels, its half for two-wide ones
    /// and its quarter for four-wide ones, so the hot path never divides.
    pub open spec fn spec_reduction_len(ke: KernelElement) -> Seq<char> {
        match ke {
            KernelElement::Scalar => "metadata.N"@,
            KernelElement::Vec2 => "metadata.ND2"@,
            KernelElement::Vec4 => "metadata.ND4"@,
        }
    }

    pub fn reduction_len(ke: KernelElement) -> (r: &'static str)
        ensures
            r@ == Self::spec_reduction_len(ke),
    {
        match ke {
            KernelElement::Scalar => "metadata.N",
            KernelElement::Vec2 => "metadata.ND2",
            KernelElement::Vec4 => "metadata.ND4",
        }
    }
}

/// The name of the generated kernel for an operation stem and width:
/// `"<op>_<vectorization>"`.
pub open spec fn spec_kernel_key(op_name: Seq<char>, ke: KernelElement) -> Seq<char> {
    op_name + "_"@ + ke.spec_suffix()
}

pub fn kernel_key(op_name: &str, ke: KernelElement) -> (r: String)
    ensures
        r@ == spec_kernel_key(op_name@, ke),
{
    String::from_str(op_name).concat("_").concat(ke.suffix())
}

/// Rendered source of a unary kernel: the element type alias, the element
/// width, and the bound numeric routine substituted into the unary template.
pub open spec fn spec_unary_source(op: UnaryOp, ke: KernelElement) -> Seq<char> {
    "// unary kernel\nalias E = "@ + ke.spec_wgsl(WgslDType::F32) + ";\nconst WIDTH: u32 = "@
        + ke.spec_size_str() + "u;\nfn apply(x: E) -> E {\n    return "@ + op.spec_func()
        + "(x);\n}\n"@
}

pub fn render_unary(op: UnaryOp, ke: KernelElement) -> (r: String)
    ensures
        r@ == spec_unary_source(op, ke),
{
    String::from_str("// unary kernel\nalias E = ").concat(
        ke.as_wgsl(WgslDType::F32).as_str(),
    ).concat(";\nconst WIDTH: u32 = ").concat(ke.size_str()).concat(
        "u;\nfn apply(x: E) -> E {\n    return ",
    ).concat(op.kernel_func()).concat("(x);\n}\n")
}

/// Rendered source of a binary kernel: element type alias, width, and the
/// infix operator substituted into the binary template.
pub open spec fn spec_binary_source(op: BinaryOp, ke: KernelElement) -> Seq<char> {
    "// binary kernel\nalias E = "@ + ke.spec_wgsl(WgslDType::F32) + ";\nconst WIDTH: u32 = "@
        + ke.spec_size_str() + "u;\nfn apply(a: E, b: E) -> E {\n    return a "@
        + op.spec_symbol() + " b;\n}\n"@
}

pub fn render_binary(op: BinaryOp, ke: KernelElement) -> (r: String)
    ensures
        r@ == spec_binary_source(op, ke),
{
    String::from_str("// binary kernel\nalias E = ").concat(
        ke.as_wgsl(WgslDType::F32).as_str(),
    ).concat(";\nconst WIDTH: u32 = ").concat(ke.size_str()).concat(
        "u;\nfn apply(a: E, b: E) -> E {\n    return a ",
    ).concat(op.mapping().1).concat(" b;\n}\n")
}

/// Rendered source of a reindex kernel: only the index-remapping body varies
/// per variant; reindex kernels are generated at scalar width only.
pub open spec fn spec_reindex_source(op: ReindexOp) -> Seq<char> {
    "// reindex kernel\nfn remap(dst_index: vec4<u32>) -> vec4<u32> {"@ + op.spec_func_body()
        + "\n    return src_index;\n}\n"@
}

pub fn render_reindex(op: ReindexOp) -> (r: String)
    ensures
        r@ == spec_reindex_source(op),
{
    String::from_str("// reindex kernel\nfn remap(dst_index: vec4<u32>) -> vec4<u32> {").concat(
        op.func_body(),
    ).concat("\n    return src_index;\n}\n")
}

/// Rendered source of a normalization kernel: element type alias, width, and
/// the precomputed reduction-length field matching the width.
pub open spec fn spec_norm_source(op: NormKernel, ke: KernelElement) -> Seq<char> {
    "// layernorm kernel\nalias E = "@ + ke.spec_wgsl(WgslDType::F32)
        + ";\nconst WIDTH: u32 = "@ + ke.spec_size_str() + "u;\nconst RED_LEN: u32 = "@
        + NormKernel::spec_reduction_len(ke) + ";\n"@
}

pub fn render_norm(op: NormKernel, ke: KernelElement) -> (r: String)
    ensures
        r@ == spec_norm_source(op, ke),
{
    String::from_str("// layernorm kernel\nalias E = ").concat(
        ke.as_wgsl(WgslDType::F32).as_str(),
    ).concat(";\nconst WIDTH: u32 = ").concat(ke.size_str()).concat(
        "u;\nconst RED_LEN: u32 = ",
    ).concat(NormKernel::reduction_len(ke)).concat(";\n")
}

} // verus!

