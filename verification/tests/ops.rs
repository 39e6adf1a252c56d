use ratchet_core::attention::{attention_n_state, kv_cache_plan, qkv_attention_plan};
use ratchet_core::compiled_op::CompiledOp;
use ratchet_core::dtype::DType;
use ratchet_core::error::OperationError;
use ratchet_core::gpu::{BindGroupLayout, BindGroupLayoutHandle, DeviceCache, WorkgroupCount};
use ratchet_core::kernel::{kernel_key, KernelElement};
use ratchet_core::norm::{LayerNorm, Norm, NormMeta, NormOp};
use ratchet_core::registry::KernelRegistry;
use ratchet_core::shape::Shape;
use ratchet_core::tensor::{Device, StorageView, Tensor};

fn tensor(dims: Vec<usize>, buffer: usize) -> Tensor {
    Tensor::new(StorageView::new(Shape::new(dims), DType::F32, Device::Gpu), buffer)
}

fn layernorm(input_dims: Vec<usize>, with_bias: bool) -> Norm {
    let input = tensor(input_dims.clone(), 0);
    let trailing = *input_dims.last().unwrap();
    let scale = tensor(vec![trailing], 1);
    let bias = if with_bias { Some(tensor(vec![trailing], 2)) } else { None };
    // 1e-5f32, as bits, as the host would hand it over.
    let eps_bits = 1.0e-5f32.to_bits();
    Norm::new(input, NormOp::LayerNorm(LayerNorm::new(scale, bias, eps_bits)))
}

#[test]
fn check_invariants_enforces_arity() {
    let t = |b| tensor(vec![2, 4], b);
    assert!(LayerNorm::check_invariants(&[t(0)]).is_err());
    assert!(LayerNorm::check_invariants(&[t(0), t(1)]).is_ok());
    assert!(LayerNorm::check_invariants(&[t(0), t(1), t(2)]).is_ok());
    let r = LayerNorm::check_invariants(&[t(0), t(1), t(2), t(3)]);
    assert_eq!(r, Err(OperationError::InvariantViolation { got: 4, min: 2, max: 3 }));
}

#[test]
fn infer_output_preserves_input_view() {
    let ln = LayerNorm::new(tensor(vec![256], 1), None, 0);
    let srcs = [tensor(vec![3, 7, 256], 0), tensor(vec![256], 1)];
    let out = ln.infer_output(&srcs).unwrap();
    assert_eq!(out.shape.dims, vec![3, 7, 256]);
    assert_eq!(out.dtype, DType::F32);
    assert_eq!(out.device, Device::Gpu);
}

#[test]
fn kernel_element_selection() {
    let dst = tensor(vec![1], 9);
    assert_eq!(layernorm(vec![1, 2, 256], true).kernel_element(&dst), KernelElement::Vec4);
    assert_eq!(layernorm(vec![1, 2, 6], true).kernel_element(&dst), KernelElement::Vec2);
    assert_eq!(layernorm(vec![1, 2, 7], true).kernel_element(&dst), KernelElement::Scalar);
    assert_eq!(layernorm(vec![1, 2, 1], true).kernel_element(&dst), KernelElement::Scalar);
    assert_eq!(layernorm(vec![1, 2, 2], true).kernel_element(&dst), KernelElement::Vec2);
    assert_eq!(layernorm(vec![1, 2, 4], true).kernel_element(&dst), KernelElement::Vec4);
}

#[test]
fn metadata_for_trailing_256() {
    let dst = tensor(vec![1], 9);
    let ke = KernelElement::Vec4;
    let m1 = layernorm(vec![3, 5, 256], true).metadata(&dst, &ke).unwrap();
    assert_eq!((m1.m, m1.n, m1.nd2, m1.nd4), (5, 256, 128, 64));
    // The derived fields do not depend on the batch or row dimensions.
    let m2 = layernorm(vec![9, 2, 11, 256], true).metadata(&dst, &ke).unwrap();
    assert_eq!((m2.n, m2.nd2, m2.nd4), (256, 128, 64));
    assert_eq!(m2.m, 11);
    assert_eq!(m1.eps_bits, 1.0e-5f32.to_bits());
}

#[test]
fn metadata_odd_trailing() {
    let dst = tensor(vec![1], 9);
    let m = layernorm(vec![2, 3, 7], true).metadata(&dst, &KernelElement::Scalar).unwrap();
    assert_eq!((m.m, m.n, m.nd2, m.nd4), (3, 7, 3, 1));
}

#[test]
fn dispatch_covers_rows_and_batches() {
    let dst = tensor(vec![1], 9);
    let wgc = layernorm(vec![3, 5, 7], true).calculate_dispatch(&dst).unwrap();
    assert_eq!(wgc, WorkgroupCount { x: 5, y: 3, z: 1 });
    let wgc = layernorm(vec![2, 3, 4, 5], true).calculate_dispatch(&dst).unwrap();
    assert_eq!(wgc, WorkgroupCount { x: 4, y: 6, z: 1 });
    let wgc = layernorm(vec![5, 256], true).calculate_dispatch(&dst).unwrap();
    assert_eq!(wgc, WorkgroupCount { x: 5, y: 1, z: 1 });
}

#[test]
fn srcs_bind_in_shader_order() {
    let norm = layernorm(vec![2, 8], true);
    let srcs = norm.srcs();
    assert_eq!(srcs.len(), 3);
    assert_eq!(srcs[0].buffer, 0);
    assert_eq!(srcs[1].buffer, 1);
    assert_eq!(srcs[2].buffer, 2);

    let norm = layernorm(vec![2, 8], false);
    let srcs = norm.srcs();
    assert_eq!(srcs.len(), 2);
    assert_eq!(srcs[0].buffer, 0);
    assert_eq!(srcs[1].buffer, 1);
}

#[test]
fn norm_names() {
    let norm = layernorm(vec![2, 8], true);
    assert_eq!(norm.name(), "layernorm");
    assert_eq!(norm.kernel_name(), "layernorm");
    assert_eq!(norm.op().kernel_name(), "layernorm");
}

#[test]
fn norm_meta_byte_layout() {
    let meta = NormMeta::new(2, 4, 2, 1, 0x3F800000);
    let bytes = meta.to_bytes();
    assert_eq!(
        bytes,
        vec![
            2, 0, 0, 0, // rows
            4, 0, 0, 0, // cols
            2, 0, 0, 0, // cols / 2
            1, 0, 0, 0, // cols / 4
            0x00, 0x00, 0x80, 0x3F, // epsilon bits
        ]
    );
}

#[test]
fn layernorm_layout_matches_operands() {
    // With a bias, out of place: input + scale + bias + destination.
    let norm = layernorm(vec![2, 8], true);
    let layout = norm.storage_bind_group_layout(false).unwrap();
    assert_eq!(layout.n_sources, 3);
    assert!(layout.separate_dst);
    assert_eq!(layout.n_bindings(), 4);

    // In place, the destination's separate binding is omitted.
    let layout = norm.storage_bind_group_layout(true).unwrap();
    assert_eq!(layout.n_sources, 3);
    assert!(!layout.separate_dst);
    assert_eq!(layout.n_bindings(), 3);

    // Without a bias only two operands are bound.
    let norm = layernorm(vec![2, 8], false);
    let layout = norm.storage_bind_group_layout(false).unwrap();
    assert_eq!(layout.n_sources, 2);
    assert!(layout.separate_dst);
    assert_eq!(layout.n_bindings(), 3);
}

#[test]
fn layernorm_without_bias_assembles() {
    let mut device = DeviceCache::new();
    let norm = layernorm(vec![3, 5, 256], false);
    let dst = tensor(vec![3, 5, 256], 7);
    let layout_desc = norm.storage_bind_group_layout(false).unwrap();
    let layouts = vec![BindGroupLayout {
        handle: BindGroupLayoutHandle { id: 0 },
        n_bindings: layout_desc.n_bindings(),
    }];
    let srcs = norm.srcs();
    assert_eq!(srcs.len(), 2);
    let groups =
        CompiledOp::create_storage_bind_groups(&srcs, &dst, &layouts, &mut device, false).unwrap();
    assert_eq!(groups.len(), 1);
}

#[test]
fn layernorm_in_place_assembles() {
    let mut device = DeviceCache::new();
    let norm = layernorm(vec![3, 5, 256], true);
    let dst = tensor(vec![3, 5, 256], 7);
    let layout_desc = norm.storage_bind_group_layout(true).unwrap();
    let layouts = vec![BindGroupLayout {
        handle: BindGroupLayoutHandle { id: 0 },
        n_bindings: layout_desc.n_bindings(),
    }];
    let srcs = norm.srcs();
    let groups =
        CompiledOp::create_storage_bind_groups(&srcs, &dst, &layouts, &mut device, true).unwrap();
    assert_eq!(groups.len(), 1);
}

#[test]
fn layernorm_end_to_end_assembly() {
    // Build the registry, pick the kernel for a 256-wide reduction, request
    // the pipeline and the bind groups, and assemble the dispatchable unit.
    let registry = KernelRegistry::build();
    let mut device = DeviceCache::new();

    let norm = layernorm(vec![3, 5, 256], true);
    let dst = tensor(vec![3, 5, 256], 7);

    let ke = norm.kernel_element(&dst);
    assert_eq!(ke, KernelElement::Vec4);
    let name = kernel_key(norm.kernel_name(), ke);
    assert_eq!(name, "layernorm_vec4");
    assert!(registry.get(&name).is_ok());

    let pipeline = device.get_or_create_pipeline(&name);
    let layout_desc = norm.storage_bind_group_layout(false).unwrap();
    let layouts = vec![BindGroupLayout {
        handle: BindGroupLayoutHandle { id: 0 },
        n_bindings: layout_desc.n_bindings(),
    }];
    let srcs = norm.srcs();
    let groups =
        CompiledOp::create_storage_bind_groups(&srcs, &dst, &layouts, &mut device, false).unwrap();
    assert_eq!(groups.len(), 1);

    let wgc = norm.calculate_dispatch(&dst).unwrap();
    let meta = norm.metadata(&dst, &ke).unwrap();
    assert_eq!(meta.to_bytes().len(), 20);

    let op = CompiledOp::new(pipeline, wgc, groups, 0, name);
    assert_eq!(op.kernel_name(), "layernorm_vec4");
    assert_eq!(*op.workgroup_count(), WorkgroupCount { x: 5, y: 3, z: 1 });
}

#[test]
fn qkv_plan_shapes_and_permutes() {
    let plan = qkv_attention_plan(1, 3, 8, 1, 10, 1, 10, 2, true, true).unwrap();
    assert_eq!(plan.hdim, 4);
    assert_eq!(plan.q_shape.dims, vec![1, 3, 2, 4]);
    assert_eq!(plan.k_shape.dims, vec![1, 10, 2, 4]);
    assert_eq!(plan.v_shape.dims, vec![1, 10, 2, 4]);
    assert_eq!(plan.q_permute.dims, vec![0, 2, 1, 3]);
    assert_eq!(plan.k_permute.dims, vec![0, 2, 3, 1]);
    assert_eq!(plan.v_permute.dims, vec![0, 2, 1, 3]);
    assert_eq!(plan.mask_rows, Some(3));
    assert_eq!(plan.out_shape.dims, vec![1, 3, 8]);
}

#[test]
fn qkv_plan_mask_handling() {
    let plan = qkv_attention_plan(1, 3, 8, 1, 3, 1, 3, 2, true, false).unwrap();
    assert_eq!(plan.mask_rows, None);
    let plan = qkv_attention_plan(1, 3, 8, 1, 3, 1, 3, 2, false, true).unwrap();
    assert_eq!(plan.mask_rows, None);
}

#[test]
fn qkv_plan_rejects_indivisible_heads() {
    let r = qkv_attention_plan(1, 3, 8, 1, 3, 1, 3, 3, false, false);
    assert_eq!(r.err(), Some(OperationError::InvariantViolation { got: 8, min: 3, max: 3 }));
    let r = qkv_attention_plan(1, 3, 8, 1, 3, 1, 3, 0, false, false);
    assert!(r.is_err());
}

#[test]
fn kv_cache_update_positions() {
    let plan = kv_cache_plan(10, 3, 1, 8).unwrap();
    assert_eq!(plan.new_entries, 13);
    assert_eq!(plan.write_offset.dims, vec![0, 10, 0]);
    assert_eq!(plan.cache_shape.dims, vec![1, 13, 8]);
}

#[test]
fn n_state_from_weight_shape() {
    assert_eq!(attention_n_state(&Shape::new(vec![512, 384])), 384);
}

#[test]
fn error_labels() {
    assert_eq!(OperationError::KernelNotFound.describe(), "kernel not found");
    assert_eq!(
        OperationError::InvariantViolation { got: 1, min: 2, max: 3 }.describe(),
        "invariant violation"
    );
    assert_eq!(
        OperationError::InconsistentBindings { group: 0, expected: 4, got: 3 }.describe(),
        "inconsistent bind group"
    );
    assert_eq!(OperationError::UnsupportedDType(DType::F16).describe(), "unsupported data type");
}
