//! The kernel registry: an immutable name-to-source mapping populated once
//! from the generator's output, before any compilation request. Lookups are
//! exact-string-key; a miss is a programming error and is reported loudly.

use vstd::prelude::*;
use crate::error::OperationError;
use crate::kernel::{
    BinaryOp, KernelElement, NormKernel, ReindexOp, UnaryOp, kernel_key, render_binary,
    render_norm, render_reindex, render_unary, spec_binary_source, spec_kernel_key,
    spec_norm_source, spec_reindex_source, spec_unary_source,
};

verus! {

/// One generated kernel: its registry key and its shader source.
pub struct KernelEntry {
    name: String,
    source: String,
}

/// Whether some entry carries the name `n`.
pub closed spec fn contains_entry(es: Seq<KernelEntry>, n: Seq<char>) -> bool {
    exists|i: int| 0 <= i < es.len() && es[i].name@ == n
}

/// Whether some entry carries the name `n` with the source `src`.
pub closed spec fn contains_kernel_entry(es: Seq<KernelEntry>, n: Seq<char>, src: Seq<char>) -> bool {
    exists|i: int| 0 <= i < es.len() && es[i].name@ == n && es[i].source@ == src
}

proof fn lemma_push_keeps_names(es: Seq<KernelEntry>, e: KernelEntry)
    ensures
        forall|n: Seq<char>| contains_entry(es, n) ==> contains_entry(es.push(e), n),
        forall|n: Seq<char>, src: Seq<char>|
            contains_kernel_entry(es, n, src) ==> contains_kernel_entry(es.push(e), n, src),
        contains_entry(es.push(e), e.name@),
        contains_kernel_entry(es.push(e), e.name@, e.source@),
{
    assert forall|n: Seq<char>| contains_entry(es, n) implies contains_entry(es.push(e), n) by {
        let i = choose|i: int| 0 <= i < es.len() && es[i].name@ == n;
        assert(es.push(e)[i].name@ == n);
    }
    assert forall|n: Seq<char>, src: Seq<char>|
        contains_kernel_entry(es, n, src) implies contains_kernel_entry(es.push(e), n, src) by {
        let i = choose|i: int|
            0 <= i < es.len() && es[i].name@ == n && es[i].source@ == src;
        assert(es.push(e)[i].name@ == n && es.push(e)[i].source@ == src);
    }
    assert(es.push(e)[es.len() as int].name@ == e.name@);
}

/// The immutable mapping from generated kernel names to shader sources.
pub struct KernelRegistry {
    entries: Vec<KernelEntry>,
}

impl KernelRegistry {
    /// Whether a source is registered under the name `n`.
    pub closed spec fn contains_name(self, n: Seq<char>) -> bool {
        contains_entry(self.entries@, n)
    }

    /// Whether exactly the source `src` is registered under the name `n`.
    pub closed spec fn contains_kernel(self, n: Seq<char>, src: Seq<char>) -> bool {
        contains_kernel_entry(self.entries@, n, src)
    }

    /// The rendered source of every width of a unary operation is registered
    /// under its expected key.
    pub open spec fn has_unary(self, u: UnaryOp) -> bool {
        &&& self.contains_kernel(
            spec_kernel_key(u.spec_name(), KernelElement::Scalar),
            spec_unary_source(u, KernelElement::Scalar),
        )
        &&& self.contains_kernel(
            spec_kernel_key(u.spec_name(), KernelElement::Vec2),
            spec_unary_source(u, KernelElement::Vec2),
        )
        &&& self.contains_kernel(
            spec_kernel_key(u.spec_name(), KernelElement::Vec4),
            spec_unary_source(u, KernelElement::Vec4),
        )
    }

    /// The rendered source of every width of a binary operation is
    /// registered under its expected key.
    pub open spec fn has_binary(self, b: BinaryOp) -> bool {
        &&& self.contains_kernel(
            spec_kernel_key(b.spec_name(), KernelElement::Scalar),
            spec_binary_source(b, KernelElement::Scalar),
        )
        &&& self.contains_kernel(
            spec_kernel_key(b.spec_name(), KernelElement::Vec2),
            spec_binary_source(b, KernelElement::Vec2),
        )
        &&& self.contains_kernel(
            spec_kernel_key(b.spec_name(), KernelElement::Vec4),
            spec_binary_source(b, KernelElement::Vec4),
        )
    }

    /// The rendered source of a reindex operation is registered under its
    /// expected key; reindex kernels are generated at scalar width only.
    pub open spec fn has_reindex(self, x: ReindexOp) -> bool {
        self.contains_kernel(
            spec_kernel_key(x.spec_name(), KernelElement::Scalar),
            spec_reindex_source(x),
        )
    }

    /// The rendered source of every width of a normalization is registered
    /// under its expected key.
    pub open spec fn has_norm(self, nk: NormKernel) -> bool {
        &&& self.contains_kernel(
            spec_kernel_key(nk.spec_name(), KernelElement::Scalar),
            spec_norm_source(nk, KernelElement::Scalar),
        )
        &&& self.contains_kernel(
            spec_kernel_key(nk.spec_name(), KernelElement::Vec2),
            spec_norm_source(nk, KernelElement::Vec2),
        )
        &&& self.contains_kernel(
            spec_kernel_key(nk.spec_name(), KernelElement::Vec4),
            spec_norm_source(nk, KernelElement::Vec4),
        )
    }

    /// Completeness over the closed operation enumerations: every pair the
    /// generator enumerates has its rendered source registered under exactly
    /// the expected `"<op>_<vectorization>"` name.
    pub open spec fn complete(self) -> bool {
        &&& forall|u: UnaryOp| self.has_unary(u)
        &&& forall|b: BinaryOp| self.has_binary(b)
        &&& forall|x: ReindexOp| self.has_reindex(x)
        &&& self.has_norm(NormKernel::LayerNorm)
    }

    fn push_entry(&mut self, name: String, source: String)
        ensures
            forall|n: Seq<char>| old(self).contains_name(n) ==> final(self).contains_name(n),
            forall|n: Seq<char>, src: Seq<char>|
                #[trigger] old(self).contains_kernel(n, src) ==> final(self).contains_kernel(
                    n,
                    src,
                ),
            final(self).contains_name(name@),
            final(self).contains_kernel(name@, source@),
    {
        proof {
            lemma_push_keeps_names(self.entries@, KernelEntry { name, source });
        }
        self.entries.push(KernelEntry { name, source });
    }

    /// Add the three widths of one operation stem, with their rendered
    /// sources.
    fn push_widths(&mut self, stem: &str, s0: String, s1: String, s2: String)
        ensures
            forall|n: Seq<char>| old(self).contains_name(n) ==> final(self).contains_name(n),
            forall|n: Seq<char>, src: Seq<char>|
                #[trigger] old(self).contains_kernel(n, src) ==> final(self).contains_kernel(
                    n,
                    src,
                ),
            final(self).contains_kernel(spec_kernel_key(stem@, KernelElement::Scalar), s0@),
            final(self).contains_kernel(spec_kernel_key(stem@, KernelElement::Vec2), s1@),
            final(self).contains_kernel(spec_kernel_key(stem@, KernelElement::Vec4), s2@),
    {
        self.push_entry(kernel_key(stem, KernelElement::Scalar), s0);
        self.push_entry(kernel_key(stem, KernelElement::Vec2), s1);
        self.push_entry(kernel_key(stem, KernelElement::Vec4), s2);
    }

    /// Scan the generator's whole output and embed it: one entry per
    /// (operation, vectorization) pair, named `"<op>_<vectorization>"`,
    /// holding that pair's rendered shader source.
    pub fn build() -> (r: KernelRegistry)
        ensures
            r.complete(),
    {
        let mut reg = KernelRegistry { entries: Vec::new() };
        reg.add_unary();
        let ghost s1 = reg;
        reg.add_binary();
        let ghost s2 = reg;
        reg.add_reindex();
        let ghost s3 = reg;
        reg.add_norm();
        proof {
            assert forall|u: UnaryOp| reg.has_unary(u) by {
                assert(s1.has_unary(u));
                assert(s2.has_unary(u));
                assert(s3.has_unary(u));
            }
            assert forall|b: BinaryOp| reg.has_binary(b) by {
                assert(s2.has_binary(b));
                assert(s3.has_binary(b));
            }
            assert forall|x: ReindexOp| reg.has_reindex(x) by {
                assert(s3.has_reindex(x));
            }
        }
        reg
    }

    fn add_unary(&mut self)
        ensures
            forall|n: Seq<char>| old(self).contains_name(n) ==> final(self).contains_name(n),
            forall|n: Seq<char>, src: Seq<char>|
                #[trigger] old(self).contains_kernel(n, src) ==> final(self).contains_kernel(
                    n,
                    src,
                ),
            forall|u: UnaryOp| final(self).has_unary(u),
    {
        let ops = [
            UnaryOp::Gelu,
            UnaryOp::Tanh,
            UnaryOp::Exp,
            UnaryOp::Log,
            UnaryOp::Sin,
            UnaryOp::Cos,
            UnaryOp::Abs,
            UnaryOp::Sqrt,
            UnaryOp::Relu,
            UnaryOp::Floor,
            UnaryOp::Ceil,
        ];
        let mut i: usize = 0;
        while i < 11
            invariant
                i <= 11,
                ops@.len() == 11,
                ops@ =~= seq![
                    UnaryOp::Gelu,
                    UnaryOp::Tanh,
                    UnaryOp::Exp,
                    UnaryOp::Log,
                    UnaryOp::Sin,
                    UnaryOp::Cos,
                    UnaryOp::Abs,
                    UnaryOp::Sqrt,
                    UnaryOp::Relu,
                    UnaryOp::Floor,
                    UnaryOp::Ceil,
                ],
                forall|n: Seq<char>| old(self).contains_name(n) ==> self.contains_name(n),
                forall|n: Seq<char>, src: Seq<char>|
                    #[trigger] old(self).contains_kernel(n, src) ==> self.contains_kernel(n, src),
                forall|j: int| 0 <= j < i ==> self.has_unary(#[trigger] ops@[j]),
            decreases 11 - i,
        {
            let op = ops[i];
            self.push_widths(
                op.name(),
                render_unary(op, KernelElement::Scalar),
                render_unary(op, KernelElement::Vec2),
                render_unary(op, KernelElement::Vec4),
            );
            i = i + 1;
        }
        proof {
            assert forall|u: UnaryOp| self.has_unary(u) by {
                match u {
                    UnaryOp::Gelu => assert(ops@[0] == u),
                    UnaryOp::Tanh => assert(ops@[1] == u),
                    UnaryOp::Exp => assert(ops@[2] == u),
                    UnaryOp::Log => assert(ops@[3] == u),
                    UnaryOp::Sin => assert(ops@[4] == u),
                    UnaryOp::Cos => assert(ops@[5] == u),
                    UnaryOp::Abs => assert(ops@[6] == u),
                    UnaryOp::Sqrt => assert(ops@[7] == u),
                    UnaryOp::Relu => assert(ops@[8] == u),
                    UnaryOp::Floor => assert(ops@[9] == u),
                    UnaryOp::Ceil => assert(ops@[10] == u),
                }
            }
        }
    }

    fn add_binary(&mut self)
        ensures
            forall|n: Seq<char>| old(self).contains_name(n) ==> final(self).contains_name(n),
            forall|n: Seq<char>, src: Seq<char>|
                #[trigger] old(self).contains_kernel(n, src) ==> final(self).contains_kernel(
                    n,
                    src,
                ),
            forall|b: BinaryOp| final(self).has_binary(b),
    {
        let ops = [BinaryOp::Add, BinaryOp::Sub, BinaryOp::Mul, BinaryOp::Div];
        let mut i: usize = 0;
        while i < 4
            invariant
                i <= 4,
                ops@.len() == 4,
                ops@ =~= seq![BinaryOp::Add, BinaryOp::Sub, BinaryOp::Mul, BinaryOp::Div],
                forall|n: Seq<char>| old(self).contains_name(n) ==> self.contains_name(n),
                forall|n: Seq<char>, src: Seq<char>|
                    #[trigger] old(self).contains_kernel(n, src) ==> self.contains_kernel(n, src),
                forall|j: int| 0 <= j < i ==> self.has_binary(#[trigger] ops@[j]),
            decreases 4 - i,
        {
            let op = ops[i];
            self.push_widths(
                op.mapping().0,
                render_binary(op, KernelElement::Scalar),
                render_binary(op, KernelElement::Vec2),
                render_binary(op, KernelElement::Vec4),
            );
            i = i + 1;
        }
        proof {
            assert forall|b: BinaryOp| self.has_binary(b) by {
                match b {
                    BinaryOp::Add => assert(ops@[0] == b),
                    BinaryOp::Sub => assert(ops@[1] == b),
                    BinaryOp::Mul => assert(ops@[2] == b),
                    BinaryOp::Div => assert(ops@[3] == b),
                }
            }
        }
    }

    fn add_reindex(&mut self)
        ensures
            forall|n: Seq<char>| old(self).contains_name(n) ==> final(self).contains_name(n),
            forall|n: Seq<char>, src: Seq<char>|
                #[trigger] old(self).contains_kernel(n, src) ==> final(self).contains_kernel(
                    n,
                    src,
                ),
            forall|x: ReindexOp| final(self).has_reindex(x),
    {
        let ops = [ReindexOp::Permute, ReindexOp::Slice, ReindexOp::Broadcast];
        let mut i: usize = 0;
        while i < 3
            invariant
                i <= 3,
                ops@.len() == 3,
                ops@ =~= seq![ReindexOp::Permute, ReindexOp::Slice, ReindexOp::Broadcast],
                forall|n: Seq<char>| old(self).contains_name(n) ==> self.contains_name(n),
                forall|n: Seq<char>, src: Seq<char>|
                    #[trigger] old(self).contains_kernel(n, src) ==> self.contains_kernel(n, src),
                forall|j: int| 0 <= j < i ==> self.has_reindex(#[trigger] ops@[j]),
            decreases 3 - i,
        {
            let op = ops[i];
            self.push_entry(kernel_key(op.name(), KernelElement::Scalar), render_reindex(op));
            i = i + 1;
        }
        proof {
            assert forall|x: ReindexOp| self.has_reindex(x) by {
                match x {
                    ReindexOp::Permute => assert(ops@[0] == x),
                    ReindexOp::Slice => assert(ops@[1] == x),
                    ReindexOp::Broadcast => assert(ops@[2] == x),
                }
            }
        }
    }

    fn add_norm(&mut self)
        ensures
            forall|n: Seq<char>| old(self).contains_name(n) ==> final(self).contains_name(n),
            forall|n: Seq<char>, src: Seq<char>|
                #[trigger] old(self).contains_kernel(n, src) ==> final(self).contains_kernel(
                    n,
                    src,
                ),
            final(self).has_norm(NormKernel::LayerNorm),
    {
        let op = NormKernel::LayerNorm;
        self.push_widths(
            op.name(),
            render_norm(op, KernelElement::Scalar),
            render_norm(op, KernelElement::Vec2),
            render_norm(op, KernelElement::Vec4),
        );
    }

    /// Number of registered kernels.
    pub closed spec fn spec_len(self) -> nat {
        self.entries@.len()
    }

    /// Number of registered kernels.
    pub fn len(&self) -> (r: usize)
        ensures
            r == self.spec_len(),
    {
        self.entries.len()
    }

    /// Exact-string-key lookup of a generated shader source. A miss means a
    /// descriptor requested a kernel that was never generated: it is
    /// reported as an error, never degraded.
    pub fn get(&self, name: &String) -> (r: Result<&String, OperationError>)
        ensures
            r is Ok <==> self.contains_name(name@),
            r matches Ok(s) ==> self.contains_name(name@) && self.source_of(name@) == s@,
            r matches Ok(s) ==> self.contains_kernel(name@, s@),
            r is Err ==> r == Err::<&String, OperationError>(OperationError::KernelNotFound),
    {
        let n = self.entries.len();
        let mut i: usize = 0;
        while i < n
            invariant
                i <= n,
                n == self.entries@.len(),
                forall|j: int| 0 <= j < i ==> self.entries@[j].name@ != name@,
            decreases n - i,
        {
            if self.entries[i].name.eq(name) {
                proof {
                    assert(self.contains_name(name@));
                    assert(self.contains_kernel(name@, self.entries@[i as int].source@));
                    lemma_source_of(self.entries@, name@, i as int);
                }
                return Ok(&self.entries[i].source);
            }
            i = i + 1;
        }
        proof {
            assert(!self.contains_name(name@));
        }
        Err(OperationError::KernelNotFound)
    }

    /// The source registered under the first entry carrying name `n`.
    pub closed spec fn source_of(self, n: Seq<char>) -> Seq<char> {
        self.entries@[first_index_of(self.entries@, n)].source@
    }
}

/// Index of the first entry carrying name `n`.
pub closed spec fn first_index_of(es: Seq<KernelEntry>, n: Seq<char>) -> int
    decreases es.len(),
{
    if es.len() == 0 {
        0
    } else if es[0].name@ == n {
        0
    } else {
        1 + first_index_of(es.drop_first(), n)
    }
}

/// If `es[i]` is the first entry named `n`, then `first_index_of` picks `i`.
proof fn lemma_source_of(es: Seq<KernelEntry>, n: Seq<char>, i: int)
    requires
        0 <= i < es.len(),
        es[i].name@ == n,
        forall|j: int| 0 <= j < i ==> es[j].name@ != n,
    ensures
        first_index_of(es, n) == i,
    decreases i,
{
    if i == 0 {
    } else {
        assert(es[0].name@ != n);
        assert(es.drop_first()[i - 1].name@ == n);
        assert forall|j: int| 0 <= j < i - 1 implies es.drop_first()[j].name@ != n by {
            assert(es[j + 1].name@ != n);
        }
        lemma_source_of(es.drop_first(), n, i - 1);
    }
}

/// A kernel registered with its source is registered by name: what
/// [`KernelRegistry::complete`] grants of an (operation, vectorization) pair
/// lets a caller conclude that looking its name up succeeds.
pub proof fn lemma_contains_kernel_name(reg: KernelRegistry, n: Seq<char>, src: Seq<char>)
    requires
        reg.contains_kernel(n, src),
    ensures
        reg.contains_name(n),
{
}

/// Law: for every operation in the closed enumerations and every
/// vectorization the generator emits for it, the registry built by
/// [`KernelRegistry::build`] holds that pair's rendered source under exactly
/// the expected `"<op>_<vectorization>"` name.
pub proof fn lemma_registry_complete(reg: KernelRegistry)
    requires
        reg.complete(),
    ensures
        forall|u: UnaryOp, ke: KernelElement|
            reg.contains_kernel(
                #[trigger] spec_kernel_key(u.spec_name(), ke),
                spec_unary_source(u, ke),
            ),
        forall|b: BinaryOp, ke: KernelElement|
            reg.contains_kernel(
                #[trigger] spec_kernel_key(b.spec_name(), ke),
                spec_binary_source(b, ke),
            ),
        forall|x: ReindexOp|
            reg.contains_kernel(
                #[trigger] spec_kernel_key(x.spec_name(), KernelElement::Scalar),
                spec_reindex_source(x),
            ),
        forall|ke: KernelElement|
            reg.contains_kernel(
                #[trigger] spec_kernel_key(NormKernel::LayerNorm.spec_name(), ke),
                spec_norm_source(NormKernel::LayerNorm, ke),
            ),
{
    assert forall|u: UnaryOp, ke: KernelElement|
        reg.contains_kernel(
            #[trigger] spec_kernel_key(u.spec_name(), ke),
            spec_unary_source(u, ke),
        ) by {
        assert(reg.has_unary(u));
        match ke {
            KernelElement::Scalar => {},
            KernelElement::Vec2 => {},
            KernelElement::Vec4 => {},
        }
    }
    assert forall|b: BinaryOp, ke: KernelElement|
        reg.contains_kernel(
            #[trigger] spec_kernel_key(b.spec_name(), ke),
            spec_binary_source(b, ke),
        ) by {
        assert(reg.has_binary(b));
        match ke {
            KernelElement::Scalar => {},
            KernelElement::Vec2 => {},
            KernelElement::Vec4 => {},
        }
    }
    assert forall|x: ReindexOp|
        reg.contains_kernel(
            #[trigger] spec_kernel_key(x.spec_name(), KernelElement::Scalar),
            spec_reindex_source(x),
        ) by {
        assert(reg.has_reindex(x));
    }
    assert forall|ke: KernelElement|
        reg.contains_kernel(
            #[trigger] spec_kernel_key(NormKernel::LayerNorm.spec_name(), ke),
            spec_norm_source(NormKernel::LayerNorm, ke),
        ) by {
        match ke {
            KernelElement::Scalar => {},
            KernelElement::Vec2 => {},
            KernelElement::Vec4 => {},
        }
    }
}

} // verus!
