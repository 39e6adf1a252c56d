//! The compiled-op assembler: turns concrete operand tensors and declared
//! bind group layouts into an immediately dispatchable unit — a pipeline
//! reference, ordered bind groups, a workgroup count and a uniform offset.
//!
//! Binding lists longer than one group's capacity are partitioned across
//! groups in source order: group `i` covers the index range
//! `[4i, min(4i + 4, k))` of `k` total bindings.

use vstd::prelude::*;
use crate::MAX_BINDINGS_PER_GROUP;
use crate::error::OperationError;
use crate::gpu::{
    BindGroupDescriptor, BindGroupEntry, BindGroupLayout, BindGroupLayoutHandle,
    ComputePipelineHandle, DeviceCache, GpuBindGroup, WorkgroupCount, cache_contains, cache_find,
    lemma_cache_find_new, lemma_cache_find_push,
};
use crate::tensor::Tensor;

verus! {

/// The binding entries a list of operand tensors contributes, in order.
pub open spec fn bindings_of(ts: Seq<&Tensor>) -> Seq<BindGroupEntry> {
    ts.map_values(|t: &Tensor| t.spec_binding())
}

/// The whole ordered binding list of one dispatch: every source tensor's
/// bindings, then the destination's unless the operation writes in place.
pub open spec fn all_bind_entries(srcs: Seq<&Tensor>, dst: Tensor, inplace: bool) -> Seq<
    BindGroupEntry,
> {
    if inplace {
        bindings_of(srcs)
    } else {
        bindings_of(srcs).push(dst.spec_binding())
    }
}

/// Number of groups `k` bindings occupy at 4 per group: the rounded-up
/// quotient.
pub open spec fn spec_groups_needed(k: int) -> int {
    (k + 3) / 4
}

/// First binding index of group `i`.
pub open spec fn spec_group_start(i: int, k: int) -> int {
    if 4 * i < k {
        4 * i
    } else {
        k
    }
}

/// One past the last binding index of group `i`.
pub open spec fn spec_group_end(i: int, k: int) -> int {
    if 4 * i + 4 < k {
        4 * i + 4
    } else {
        k
    }
}

/// The bindings of group `i`.
pub open spec fn spec_partition(entries: Seq<BindGroupEntry>, i: int) -> Seq<BindGroupEntry> {
    entries.subrange(
        spec_group_start(i, entries.len() as int),
        spec_group_end(i, entries.len() as int),
    )
}

/// The descriptor group `i` is created from: its bindings under the `i`-th
/// declared layout.
pub open spec fn spec_group_descriptor(
    entries: Seq<BindGroupEntry>,
    layouts: Seq<BindGroupLayout>,
    i: int,
) -> (Seq<BindGroupEntry>, BindGroupLayoutHandle) {
    (spec_partition(entries, i), layouts[i].handle)
}

/// Law: partitioning `k` bindings with group capacity 4 yields exactly
/// `⌈k/4⌉` groups; binding `j` lands in group `j / 4`, inside that group's
/// range `[4i, min(4i + 4, k))`, and in no other group.
pub proof fn lemma_partition_covers(k: int, j: int)
    requires
        0 <= j < k,
    ensures
        0 <= j / 4 < spec_groups_needed(k),
        spec_group_start(j / 4, k) <= j < spec_group_end(j / 4, k),
        forall|i: int|
            0 <= i < spec_groups_needed(k) && i != j / 4 ==> !(#[trigger] spec_group_start(i, k)
                <= j < spec_group_end(i, k)),
{
    assert(4 * (j / 4) <= j < 4 * (j / 4) + 4) by (nonlinear_arith);
    assert(j / 4 < (k + 3) / 4) by (nonlinear_arith)
        requires
            0 <= j < k,
    ;
    assert forall|i: int|
        0 <= i < spec_groups_needed(k) && i != j / 4 implies !(#[trigger] spec_group_start(i, k)
        <= j < spec_group_end(i, k)) by {
        if i < j / 4 {
            assert(4 * i + 4 <= 4 * (j / 4)) by (nonlinear_arith)
                requires
                    i < j / 4,
            ;
        } else {
            assert(4 * i >= 4 * (j / 4) + 4) by (nonlinear_arith)
                requires
                    i > j / 4,
            ;
        }
    }
}

/// Law: every group the partition yields is non-empty and holds at most 4
/// bindings.
pub proof fn lemma_partition_sizes(k: int, i: int)
    requires
        0 <= i < spec_groups_needed(k),
    ensures
        spec_group_start(i, k) < spec_group_end(i, k),
        spec_group_end(i, k) - spec_group_start(i, k) <= 4,
{
    assert(4 * i < k) by (nonlinear_arith)
        requires
            0 <= i < (k + 3) / 4,
    ;
}

/// One dispatchable kernel invocation: a pipeline reference, the 3-D
/// workgroup count, the ordered bind groups, a byte offset into the shared
/// uniform-metadata buffer, and the kernel name kept for diagnostics. It is
/// produced per dispatch and consumed exactly once by submission.
pub struct CompiledOp {
    pub pipeline_handle: ComputePipelineHandle,
    pub workgroup_count: WorkgroupCount,
    pub storage_groups: Vec<GpuBindGroup>,
    pub offset: u32,
    pub kernel_name: String,
}

impl CompiledOp {
    pub fn new(
        pipeline_handle: ComputePipelineHandle,
        workgroup_count: WorkgroupCount,
        storage_groups: Vec<GpuBindGroup>,
        offset: u32,
        kernel_name: String,
    ) -> (r: Self)
        ensures
            r.pipeline_handle == pipeline_handle,
            r.workgroup_count == workgroup_count,
            r.storage_groups@ == storage_groups@,
            r.offset == offset,
            r.kernel_name@ == kernel_name@,
    {
        CompiledOp { pipeline_handle, workgroup_count, storage_groups, offset, kernel_name }
    }

    /// Which bindings belong to which bind group: the clamped index range
    /// `[min(4i, k), min(4i + 4, k))` of group `i` over `k` bindings.
    pub fn group_range(group_index: usize, binding_counter: usize) -> (r: (usize, usize))
        requires
            4 * group_index + 4 <= usize::MAX,
        ensures
            r.0 == spec_group_start(group_index as int, binding_counter as int),
            r.1 == spec_group_end(group_index as int, binding_counter as int),
            r.0 <= r.1 <= binding_counter,
    {
        let cap = MAX_BINDINGS_PER_GROUP * group_index;
        let start = if cap < binding_counter {
            cap
        } else {
            binding_counter
        };
        let e = cap + MAX_BINDINGS_PER_GROUP;
        let end = if e < binding_counter {
            e
        } else {
            binding_counter
        };
        (start, end)
    }

    /// Assemble the bind groups of one dispatch: collect each source
    /// tensor's bindings in order, append the destination's unless the
    /// operation writes in place, partition the list into groups of at most
    /// 4 in source order, and request each group from the device cache under
    /// its declared layout. A partition whose size disagrees with its
    /// layout's expectation is an error, not a retry.
    ///
    /// On success, each returned handle is the device cache's unique object
    /// for exactly that group's descriptor: structurally identical requests
    /// reuse it.
    pub fn create_storage_bind_groups(
        srcs: &[&Tensor],
        dst: &Tensor,
        bind_group_layouts: &Vec<BindGroupLayout>,
        device: &mut DeviceCache,
        inplace: bool,
    ) -> (r: Result<Vec<GpuBindGroup>, OperationError>)
        requires
            4 * bind_group_layouts@.len() + 4 <= usize::MAX,
            srcs@.len() < usize::MAX,
        ensures
            ({
                let entries = all_bind_entries(srcs@, *dst, inplace);
                let k = entries.len() as int;
                &&& (r is Ok <==> forall|i: int|
                    0 <= i < bind_group_layouts@.len() ==> spec_group_end(i, k)
                        - spec_group_start(i, k) == bind_group_layouts@[i].n_bindings)
                &&& (r matches Ok(groups) ==> {
                    &&& groups@.len() == bind_group_layouts@.len()
                    &&& forall|i: int|
                        0 <= i < groups@.len() ==> {
                            &&& cache_contains(
                                final(device).spec_bind_groups(),
                                #[trigger] spec_group_descriptor(entries, bind_group_layouts@, i),
                            )
                            &&& groups@[i].id == cache_find(
                                final(device).spec_bind_groups(),
                                spec_group_descriptor(entries, bind_group_layouts@, i),
                            )
                        }
                })
                &&& (r matches Err(e) ==> e matches OperationError::InconsistentBindings {
                    group,
                    expected,
                    got,
                } && 0 <= group < bind_group_layouts@.len() && expected
                    == bind_group_layouts@[group as int].n_bindings && got == spec_group_end(
                    group as int,
                    k,
                ) - spec_group_start(group as int, k) && got != expected)
                &&& final(device).spec_pipelines() == old(device).spec_pipelines()
                &&& old(device).spec_bind_groups().len()
                    <= final(device).spec_bind_groups().len()
                &&& old(device).spec_bind_groups() == final(device).spec_bind_groups().take(
                    old(device).spec_bind_groups().len() as int,
                )
            }),
    {
        let ghost spec_entries = all_bind_entries(srcs@, *dst, inplace);
        let mut entries: Vec<BindGroupEntry> = Vec::new();
        let mut t: usize = 0;
        proof {
            assert(entries@ =~= bindings_of(srcs@.take(0)));
        }
        while t < srcs.len()
            invariant
                t <= srcs@.len(),
                entries@ == bindings_of(srcs@.take(t as int)),
            decreases srcs@.len() - t,
        {
            let tensor: &Tensor = *vstd::slice::slice_index_get(srcs, t);
            let mut b = tensor.bindings();
            entries.append(&mut b);
            proof {
                assert(entries@ =~= bindings_of(srcs@.take(t + 1)));
            }
            t = t + 1;
        }
        proof {
            assert(srcs@.take(srcs@.len() as int) =~= srcs@);
        }
        if !inplace {
            let mut b = dst.bindings();
            entries.append(&mut b);
        }
        proof {
            assert(entries@ =~= spec_entries);
        }
        let k = entries.len();
        let n_layouts = bind_group_layouts.len();
        let mut storage_groups: Vec<GpuBindGroup> = Vec::new();
        let mut gi: usize = 0;
        while gi < n_layouts
            invariant
                gi <= n_layouts,
                n_layouts == bind_group_layouts@.len(),
                spec_entries == all_bind_entries(srcs@, *dst, inplace),
                4 * n_layouts + 4 <= usize::MAX,
                k == spec_entries.len(),
                entries@ == spec_entries,
                storage_groups@.len() == gi,
                device.spec_pipelines() == old(device).spec_pipelines(),
                old(device).spec_bind_groups().len() <= device.spec_bind_groups().len(),
                old(device).spec_bind_groups() == device.spec_bind_groups().take(
                    old(device).spec_bind_groups().len() as int,
                ),
                forall|i: int|
                    0 <= i < gi ==> spec_group_end(i, k as int) - spec_group_start(i, k as int)
                        == bind_group_layouts@[i].n_bindings,
                forall|i: int|
                    0 <= i < gi ==> {
                        &&& cache_contains(
                            device.spec_bind_groups(),
                            #[trigger] spec_group_descriptor(spec_entries, bind_group_layouts@, i),
                        )
                        &&& storage_groups@[i].id == cache_find(
                            device.spec_bind_groups(),
                            spec_group_descriptor(spec_entries, bind_group_layouts@, i),
                        )
                    },
            decreases n_layouts - gi,
        {
            let (start, end) = Self::group_range(gi, k);
            let size = end - start;
            let expected = bind_group_layouts[gi].n_bindings;
            if size != expected {
                proof {
                    assert(size == spec_group_end(gi as int, spec_entries.len() as int)
                        - spec_group_start(gi as int, spec_entries.len() as int));
                    assert(size != bind_group_layouts@[gi as int].n_bindings);
                }
                return Err(
                    OperationError::InconsistentBindings { group: gi, expected, got: size },
                );
            }
            let part = vstd::slice::slice_to_vec(
                vstd::slice::slice_subrange(entries.as_slice(), start, end),
            );
            let desc = BindGroupDescriptor {
                entries: part,
                layout: bind_group_layouts[gi].handle,
            };
            proof {
                assert(desc@ == spec_group_descriptor(spec_entries, bind_group_layouts@, gi as int));
            }
            let ghost before = device.spec_bind_groups();
            let bg = device.get_or_create_bind_group(&desc);
            proof {
                if cache_contains(before, desc@) {
                } else {
                    assert(old(device).spec_bind_groups() == device.spec_bind_groups().take(
                        old(device).spec_bind_groups().len() as int,
                    )) by {
                        assert(device.spec_bind_groups().take(
                            old(device).spec_bind_groups().len() as int,
                        ) =~= before.take(old(device).spec_bind_groups().len() as int));
                    }
                    assert forall|i: int|
                        0 <= i < gi implies {
                        &&& cache_contains(
                            device.spec_bind_groups(),
                            spec_group_descriptor(spec_entries, bind_group_layouts@, i),
                        )
                        &&& storage_groups@[i].id == cache_find(
                            device.spec_bind_groups(),
                            spec_group_descriptor(spec_entries, bind_group_layouts@, i),
                        )
                    } by {
                        lemma_cache_find_push(
                            before,
                            spec_group_descriptor(spec_entries, bind_group_layouts@, i),
                            desc@,
                        );
                    }
                    lemma_cache_find_new(before, desc@);
                }
            }
            storage_groups.push(bg);
            gi = gi + 1;
        }
        Ok(storage_groups)
    }

    pub fn workgroup_count(&self) -> (r: &WorkgroupCount)
        ensures
            r == &self.workgroup_count,
    {
        &self.workgroup_count
    }

    /// Byte offset of this dispatch's metadata in the shared uniform buffer.
    pub fn offset(&self) -> (r: u32)
        ensures
            r == self.offset,
    {
        self.offset
    }

    pub fn storage_groups(&self) -> (r: &Vec<GpuBindGroup>)
        ensures
            r@ == self.storage_groups@,
    {
        &self.storage_groups
    }

    pub fn pipeline_handle(&self) -> (r: ComputePipelineHandle)
        ensures
            r == self.pipeline_handle,
    {
        self.pipeline_handle
    }

    pub fn kernel_name(&self) -> (r: &str)
        ensures
            r@ == self.kernel_name@,
    {
        self.kernel_name.as_str()
    }
}

} // verus!
