//! Run-time GPU resource model: workgroup counts, binding descriptors, and
//! the device resource cache.
//!
//! Pipelines and bind groups are keyed by structural descriptor equality and
//! created at most once: a request for an already-cached descriptor returns
//! the existing handle and leaves the cache unchanged. Handles index the
//! device's pools of created objects.

use vstd::prelude::*;

verus! {

/// The 3-D count of workgroups launched for one kernel invocation.
#[derive(Clone, Copy, Debug, PartialEq, Eq, Structural)]
pub struct WorkgroupCount {
    pub x: u32,
    pub y: u32,
    pub z: u32,
}

/// One buffer binding handed to a kernel: the handle of the backing device
/// buffer.
#[derive(Clone, Copy, Debug, PartialEq, Eq, Structural)]
pub struct BindGroupEntry {
    pub buffer: usize,
}

/// Handle of a created bind group layout.
#[derive(Clone, Copy, Debug, PartialEq, Eq, Structural)]
pub struct BindGroupLayoutHandle {
    pub id: usize,
}

/// Handle of a compiled compute pipeline.
#[derive(Clone, Copy, Debug, PartialEq, Eq, Structural)]
pub struct ComputePipelineHandle {
    pub id: usize,
}

/// Handle of a created bind group.
#[derive(Clone, Copy, Debug, PartialEq, Eq, Structural)]
pub struct GpuBindGroup {
    pub id: usize,
}

/// Declares the bindings of one bind group: how many read-only source
/// bindings it holds and whether the destination tensor occupies a separate
/// read-write binding (it does not when the operation writes in place).
#[derive(Clone, Copy, Debug, PartialEq, Eq, Structural)]
pub struct BindGroupLayoutDescriptor {
    pub n_sources: usize,
    pub separate_dst: bool,
}

impl BindGroupLayoutDescriptor {
    /// Total number of bindings the layout expects.
    pub open spec fn spec_n_bindings(self) -> int {
        self.n_sources + if self.separate_dst {
            1int
        } else {
            0int
        }
    }

    pub fn n_bindings(self) -> (r: usize)
        requires
            self.n_sources < usize::MAX,
        ensures
            r == self.spec_n_bindings(),
    {
        if self.separate_dst {
            self.n_sources + 1
        } else {
            self.n_sources
        }
    }

    /// One source operand plus a destination binding.
    pub fn unary() -> (r: Self)
        ensures
            r == (BindGroupLayoutDescriptor { n_sources: 1, separate_dst: true }),
    {
        BindGroupLayoutDescriptor { n_sources: 1, separate_dst: true }
    }

    /// Two source operands plus a destination binding; also the shape of a
    /// ternary operation run in place.
    pub fn binary() -> (r: Self)
        ensures
            r == (BindGroupLayoutDescriptor { n_sources: 2, separate_dst: true }),
    {
        BindGroupLayoutDescriptor { n_sources: 2, separate_dst: true }
    }

    /// Three source operands (e.g. input, scale and bias) plus a destination
    /// binding.
    pub fn ternary() -> (r: Self)
        ensures
            r == (BindGroupLayoutDescriptor { n_sources: 3, separate_dst: true }),
    {
        BindGroupLayoutDescriptor { n_sources: 3, separate_dst: true }
    }
}

/// A created layout together with its expected binding count, as handed to
/// the assembler.
#[derive(Clone, Copy, Debug, PartialEq, Eq, Structural)]
pub struct BindGroupLayout {
    pub handle: BindGroupLayoutHandle,
    pub n_bindings: usize,
}

/// What a bind group is created from: the ordered binding entries and the
/// layout they are bound under. Two descriptors are the same key exactly
/// when these match structurally.
pub struct BindGroupDescriptor {
    pub entries: Vec<BindGroupEntry>,
    pub layout: BindGroupLayoutHandle,
}

impl BindGroupDescriptor {
    /// The structural content that keys the cache.
    pub open spec fn view(self) -> (Seq<BindGroupEntry>, BindGroupLayoutHandle) {
        (self.entries@, self.layout)
    }

    /// Structural equality of descriptors.
    pub fn matches(&self, other: &BindGroupDescriptor) -> (r: bool)
        ensures
            r == (self@ == other@),
    {
        if self.layout.id != other.layout.id {
            proof {
                assert(self@ != other@);
            }
            return false;
        }
        if self.entries.len() != other.entries.len() {
            proof {
                assert(self@.0.len() != other@.0.len());
            }
            return false;
        }
        let n = self.entries.len();
        let mut i: usize = 0;
        while i < n
            invariant
                i <= n,
                n == self.entries@.len(),
                n == other.entries@.len(),
                forall|j: int| 0 <= j < i ==> self.entries@[j] == other.entries@[j],
            decreases n - i,
        {
            if self.entries[i].buffer != other.entries[i].buffer {
                proof {
                    assert(self.entries@[i as int] != other.entries@[i as int]);
                }
                return false;
            }
            i = i + 1;
        }
        proof {
            assert(self.entries@ =~= other.entries@);
        }
        true
    }
}

impl Clone for BindGroupDescriptor {
    fn clone(&self) -> (r: Self)
        ensures
            r@ == self@,
    {
        BindGroupDescriptor { entries: self.entries.clone(), layout: self.layout }
    }
}

/// Whether the pool already holds `x`.
pub open spec fn cache_contains<T>(s: Seq<T>, x: T) -> bool {
    exists|i: int| 0 <= i < s.len() && s[i] == x
}

/// Index of the first occurrence of `x` in the pool.
pub open spec fn cache_find<T>(s: Seq<T>, x: T) -> int
    decreases s.len(),
{
    if s.len() == 0 {
        0
    } else if s[0] == x {
        0
    } else {
        1 + cache_find(s.drop_first(), x)
    }
}

/// The create-or-reuse step: a hit returns the pool unchanged with the
/// existing index; a miss appends and returns the new index.
pub open spec fn cache_get_or_create<T>(s: Seq<T>, x: T) -> (Seq<T>, int) {
    if cache_contains(s, x) {
        (s, cache_find(s, x))
    } else {
        (s.push(x), s.len() as int)
    }
}

/// A contained element is found at a valid index, and that index holds it.
pub proof fn lemma_cache_find_valid<T>(s: Seq<T>, x: T)
    requires
        cache_contains(s, x),
    ensures
        0 <= cache_find(s, x) < s.len(),
        s[cache_find(s, x)] == x,
    decreases s.len(),
{
    if s.len() > 0 && s[0] != x {
        let i = choose|i: int| 0 <= i < s.len() && s[i] == x;
        assert(s.drop_first()[i - 1] == x);
        lemma_cache_find_valid(s.drop_first(), x);
    }
}

/// If `s[i]` is the first occurrence of `x`, `cache_find` picks `i`.
pub proof fn lemma_cache_find_first<T>(s: Seq<T>, x: T, i: int)
    requires
        0 <= i < s.len(),
        s[i] == x,
        forall|j: int| 0 <= j < i ==> s[j] != x,
    ensures
        cache_find(s, x) == i,
        cache_contains(s, x),
    decreases i,
{
    if i > 0 {
        assert(s.drop_first()[i - 1] == x);
        assert forall|j: int| 0 <= j < i - 1 implies s.drop_first()[j] != x by {
            assert(s[j + 1] != x);
        }
        lemma_cache_find_first(s.drop_first(), x, i - 1);
    }
}

/// Appending another element moves no existing first occurrence.
pub proof fn lemma_cache_find_push<T>(s: Seq<T>, x: T, y: T)
    requires
        cache_contains(s, x),
    ensures
        cache_contains(s.push(y), x),
        cache_find(s.push(y), x) == cache_find(s, x),
    decreases s.len(),
{
    lemma_cache_find_valid(s, x);
    let i = cache_find(s, x);
    assert(s.push(y)[i] == x);
    if i > 0 {
        assert(s.drop_first()[i - 1] == x);
    }
    assert forall|j: int| 0 <= j < i implies s.push(y)[j] != x by {
        lemma_cache_find_ahead(s, x, j);
    }
    lemma_cache_find_first(s.push(y), x, i);
}

/// Nothing before the first occurrence equals the element.
pub proof fn lemma_cache_find_ahead<T>(s: Seq<T>, x: T, j: int)
    requires
        0 <= j < cache_find(s, x),
        j < s.len(),
    ensures
        s[j] != x,
    decreases j,
{
    if j == 0 {
    } else {
        lemma_cache_find_ahead(s.drop_first(), x, j - 1);
    }
}

/// A fresh element is found at the appended position.
pub proof fn lemma_cache_find_new<T>(s: Seq<T>, x: T)
    requires
        !cache_contains(s, x),
    ensures
        cache_contains(s.push(x), x),
        cache_find(s.push(x), x) == s.len(),
{
    assert(s.push(x)[s.len() as int] == x);
    assert forall|j: int| 0 <= j < s.len() implies s.push(x)[j] != x by {
        assert(s[j] != x);
    }
    lemma_cache_find_first(s.push(x), x, s.len() as int);
}

/// A prefix extension moves no first occurrence: an element cached in the
/// old pool keeps its handle in any pool the old one is a prefix of.
pub proof fn lemma_cache_find_prefix<T>(a: Seq<T>, b: Seq<T>, x: T)
    requires
        a.len() <= b.len(),
        a == b.take(a.len() as int),
        cache_contains(a, x),
    ensures
        cache_contains(b, x),
        cache_find(b, x) == cache_find(a, x),
{
    lemma_cache_find_valid(a, x);
    let i = cache_find(a, x);
    assert(b[i] == a[i]);
    assert forall|j: int| 0 <= j < i implies b[j] != x by {
        assert(b[j] == a[j]);
        lemma_cache_find_ahead(a, x, j);
    }
    lemma_cache_find_first(b, x, i);
}

/// Law: the device cache is idempotent under repeated requests. Two
/// create-or-reuse steps with structurally identical descriptors yield the
/// same handle, and the second step changes nothing: no duplicate object is
/// ever created.
pub proof fn lemma_cache_idempotent<T>(s: Seq<T>, x: T)
    ensures
        ({
            let (s1, h1) = cache_get_or_create(s, x);
            let (s2, h2) = cache_get_or_create(s1, x);
            s2 == s1 && h2 == h1 && cache_contains(s1, x)
        }),
{
    if cache_contains(s, x) {
    } else {
        lemma_cache_find_new(s, x);
    }
}

/// The device resource cache: pools of compiled pipelines (keyed by kernel
/// name) and created bind groups (keyed by descriptor), each deduplicated by
/// structural equality with no implicit invalidation. A handle is the index
/// of the object in its pool.
pub struct DeviceCache {
    pipelines: Vec<String>,
    bind_groups: Vec<BindGroupDescriptor>,
}

impl DeviceCache {
    /// The kernel names the compiled pipelines were built from, by handle.
    pub closed spec fn spec_pipelines(self) -> Seq<Seq<char>> {
        self.pipelines@.map_values(|s: String| s@)
    }

    /// The descriptors the bind groups were created from, by handle.
    pub closed spec fn spec_bind_groups(self) -> Seq<(Seq<BindGroupEntry>, BindGroupLayoutHandle)> {
        self.bind_groups@.map_values(|d: BindGroupDescriptor| d@)
    }

    /// A device with nothing compiled or created yet.
    pub fn new() -> (r: DeviceCache)
        ensures
            r.spec_pipelines() == Seq::<Seq<char>>::empty(),
            r.spec_bind_groups() == Seq::<(Seq<BindGroupEntry>, BindGroupLayoutHandle)>::empty(),
    {
        let r = DeviceCache { pipelines: Vec::new(), bind_groups: Vec::new() };
        proof {
            assert(r.spec_pipelines() =~= Seq::<Seq<char>>::empty());
            assert(r.spec_bind_groups() =~= Seq::<
                (Seq<BindGroupEntry>, BindGroupLayoutHandle),
            >::empty());
        }
        r
    }

    /// Create-or-reuse a compiled pipeline for a kernel name: a lookup hit
    /// never recompiles, a miss compiles exactly once.
    pub fn get_or_create_pipeline(&mut self, kernel_name: &String) -> (r: ComputePipelineHandle)
        ensures
            final(self).spec_pipelines() == cache_get_or_create(
                old(self).spec_pipelines(),
                kernel_name@,
            ).0,
            r.id == cache_get_or_create(old(self).spec_pipelines(), kernel_name@).1,
            final(self).spec_bind_groups() == old(self).spec_bind_groups(),
    {
        let n = self.pipelines.len();
        let mut i: usize = 0;
        while i < n
            invariant
                i <= n,
                n == self.pipelines@.len(),
                forall|j: int| 0 <= j < i ==> self.spec_pipelines()[j] != kernel_name@,
            decreases n - i,
        {
            if self.pipelines[i].eq(kernel_name) {
                proof {
                    assert(self.spec_pipelines()[i as int] == kernel_name@);
                    lemma_cache_find_first(self.spec_pipelines(), kernel_name@, i as int);
                }
                return ComputePipelineHandle { id: i };
            }
            proof {
                assert(self.spec_pipelines()[i as int] == self.pipelines@[i as int]@);
            }
            i = i + 1;
        }
        proof {
            assert(!cache_contains(self.spec_pipelines(), kernel_name@));
        }
        let ghost before = self.spec_pipelines();
        self.pipelines.push(kernel_name.clone());
        proof {
            assert(self.spec_pipelines() =~= before.push(kernel_name@));
        }
        ComputePipelineHandle { id: n }
    }

    /// Create-or-reuse a bind group for a descriptor: structurally identical
    /// requests observe the same cached object.
    pub fn get_or_create_bind_group(&mut self, desc: &BindGroupDescriptor) -> (r: GpuBindGroup)
        ensures
            final(self).spec_bind_groups() == cache_get_or_create(
                old(self).spec_bind_groups(),
                desc@,
            ).0,
            r.id == cache_get_or_create(old(self).spec_bind_groups(), desc@).1,
            final(self).spec_pipelines() == old(self).spec_pipelines(),
    {
        let n = self.bind_groups.len();
        let mut i: usize = 0;
        while i < n
            invariant
                i <= n,
                n == self.bind_groups@.len(),
                forall|j: int| 0 <= j < i ==> self.spec_bind_groups()[j] != desc@,
            decreases n - i,
        {
            if self.bind_groups[i].matches(desc) {
                proof {
                    assert(self.spec_bind_groups()[i as int] == desc@);
                    lemma_cache_find_first(self.spec_bind_groups(), desc@, i as int);
                }
                return GpuBindGroup { id: i };
            }
            proof {
                assert(self.spec_bind_groups()[i as int] == self.bind_groups@[i as int]@);
            }
            i = i + 1;
        }
        proof {
            assert(!cache_contains(self.spec_bind_groups(), desc@));
        }
        let ghost before = self.spec_bind_groups();
        self.bind_groups.push(desc.clone());
        proof {
            assert(self.spec_bind_groups() =~= before.push(desc@));
        }
        GpuBindGroup { id: n }
    }
}

} // verus!
