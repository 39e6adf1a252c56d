use ratchet_core::compiled_op::CompiledOp;
use ratchet_core::dtype::DType;
use ratchet_core::error::OperationError;
use ratchet_core::gpu::{
    BindGroupDescriptor, BindGroupEntry, BindGroupLayout, BindGroupLayoutDescriptor,
    BindGroupLayoutHandle, DeviceCache, WorkgroupCount,
};
use ratchet_core::kernel::{
    kernel_key, render_binary, render_norm, render_reindex, render_unary, BinaryOp, KernelElement,
    NormKernel, ReindexOp, UnaryOp, WgslDType,
};
use ratchet_core::registry::KernelRegistry;
use ratchet_core::shape::Shape;
use ratchet_core::tensor::{Device, StorageView, Tensor};

fn gpu_tensor(dims: Vec<usize>, buffer: usize) -> Tensor {
    Tensor::new(StorageView::new(Shape::new(dims), DType::F32, Device::Gpu), buffer)
}

#[test]
fn kernel_key_format() {
    assert_eq!(kernel_key("add", KernelElement::Vec2), "add_vec2");
    assert_eq!(kernel_key("layernorm", KernelElement::Scalar), "layernorm_scalar");
    assert_eq!(kernel_key("gelu", KernelElement::Vec4), "gelu_vec4");
}

#[test]
fn kernel_element_values() {
    assert_eq!(KernelElement::Scalar.as_size(), 1);
    assert_eq!(KernelElement::Vec2.as_size(), 2);
    assert_eq!(KernelElement::Vec4.as_size(), 4);
    assert_eq!(KernelElement::Scalar.as_wgsl(WgslDType::F32), "f32");
    assert_eq!(KernelElement::Vec2.as_wgsl(WgslDType::F32), "vec2<f32>");
    assert_eq!(KernelElement::Vec4.as_wgsl(WgslDType::F32), "vec4<f32>");
}

#[test]
fn registry_holds_every_generated_kernel() {
    let reg = KernelRegistry::build();
    let widths = [KernelElement::Scalar, KernelElement::Vec2, KernelElement::Vec4];
    let unary = [
        UnaryOp::Gelu,
        UnaryOp::Tanh,
        UnaryOp::Exp,
        UnaryOp::Log,
        UnaryOp::Sin,
        UnaryOp::Cos,
        UnaryOp::Abs,
        UnaryOp::Sqrt,
        UnaryOp::Relu,
        UnaryOp::Floor,
        UnaryOp::Ceil,
    ];
    for op in unary {
        for ke in widths {
            let name = kernel_key(op.name(), ke);
            assert!(reg.get(&name).is_ok(), "missing kernel {}", name);
        }
    }
    for op in [BinaryOp::Add, BinaryOp::Sub, BinaryOp::Mul, BinaryOp::Div] {
        for ke in widths {
            let name = kernel_key(op.mapping().0, ke);
            assert!(reg.get(&name).is_ok(), "missing kernel {}", name);
        }
    }
    for op in [ReindexOp::Permute, ReindexOp::Slice, ReindexOp::Broadcast] {
        let name = kernel_key(op.name(), KernelElement::Scalar);
        assert!(reg.get(&name).is_ok(), "missing kernel {}", name);
    }
    for ke in widths {
        let name = kernel_key(NormKernel::LayerNorm.name(), ke);
        assert!(reg.get(&name).is_ok(), "missing kernel {}", name);
    }
    assert_eq!(reg.len(), 11 * 3 + 4 * 3 + 3 + 3);
}

#[test]
fn registry_miss_fails_loudly() {
    let reg = KernelRegistry::build();
    let missing = String::from("matmul_scalar");
    assert_eq!(reg.get(&missing).err(), Some(OperationError::KernelNotFound));
}

#[test]
fn tanh_binds_to_safe_variant() {
    assert_eq!(UnaryOp::Tanh.kernel_func(), "safe_tanh");
    assert_eq!(UnaryOp::Tanh.name(), "tanh");
    let source = render_unary(UnaryOp::Tanh, KernelElement::Scalar);
    assert!(source.contains("safe_tanh"));
    let exp = render_unary(UnaryOp::Exp, KernelElement::Scalar);
    assert!(exp.contains("exp(x)"));
}

#[test]
fn rendering_is_deterministic() {
    assert_eq!(
        render_unary(UnaryOp::Gelu, KernelElement::Vec4),
        render_unary(UnaryOp::Gelu, KernelElement::Vec4)
    );
    assert_eq!(
        render_binary(BinaryOp::Div, KernelElement::Vec2),
        render_binary(BinaryOp::Div, KernelElement::Vec2)
    );
    assert_eq!(render_reindex(ReindexOp::Permute), render_reindex(ReindexOp::Permute));
    assert_eq!(
        render_norm(NormKernel::LayerNorm, KernelElement::Scalar),
        render_norm(NormKernel::LayerNorm, KernelElement::Scalar)
    );
}

#[test]
fn norm_source_selects_reduction_field() {
    assert!(render_norm(NormKernel::LayerNorm, KernelElement::Scalar).contains("metadata.N"));
    assert!(render_norm(NormKernel::LayerNorm, KernelElement::Vec2).contains("metadata.ND2"));
    assert!(render_norm(NormKernel::LayerNorm, KernelElement::Vec4).contains("metadata.ND4"));
}

#[test]
fn binary_source_uses_symbol() {
    assert!(render_binary(BinaryOp::Add, KernelElement::Scalar).contains("a + b"));
    assert!(render_binary(BinaryOp::Mul, KernelElement::Vec4).contains("a * b"));
}

#[test]
fn pipeline_cache_is_idempotent() {
    let mut device = DeviceCache::new();
    let name = String::from("layernorm_vec4");
    let first = device.get_or_create_pipeline(&name);
    let second = device.get_or_create_pipeline(&name);
    assert_eq!(first, second);
    let other = device.get_or_create_pipeline(&String::from("add_scalar"));
    assert_ne!(first, other);
    let third = device.get_or_create_pipeline(&name);
    assert_eq!(first, third);
}

#[test]
fn bind_group_cache_is_idempotent() {
    let mut device = DeviceCache::new();
    let layout = BindGroupLayoutHandle { id: 0 };
    let desc_a = BindGroupDescriptor {
        entries: vec![BindGroupEntry { buffer: 1 }, BindGroupEntry { buffer: 2 }],
        layout,
    };
    let desc_b = BindGroupDescriptor {
        entries: vec![BindGroupEntry { buffer: 1 }, BindGroupEntry { buffer: 2 }],
        layout,
    };
    let first = device.get_or_create_bind_group(&desc_a);
    let second = device.get_or_create_bind_group(&desc_b);
    assert_eq!(first, second);
    let different = BindGroupDescriptor {
        entries: vec![BindGroupEntry { buffer: 2 }, BindGroupEntry { buffer: 1 }],
        layout,
    };
    let third = device.get_or_create_bind_group(&different);
    assert_ne!(first, third);
}

#[test]
fn group_range_partitions_nine_bindings() {
    assert_eq!(CompiledOp::group_range(0, 9), (0, 4));
    assert_eq!(CompiledOp::group_range(1, 9), (4, 8));
    assert_eq!(CompiledOp::group_range(2, 9), (8, 9));
}

#[test]
fn nine_bindings_make_groups_of_4_4_1() {
    let mut device = DeviceCache::new();
    let srcs: Vec<Tensor> = (0..8).map(|i| gpu_tensor(vec![4], i)).collect();
    let src_refs: Vec<&Tensor> = srcs.iter().collect();
    let dst = gpu_tensor(vec![4], 100);
    let layouts = vec![
        BindGroupLayout { handle: BindGroupLayoutHandle { id: 0 }, n_bindings: 4 },
        BindGroupLayout { handle: BindGroupLayoutHandle { id: 1 }, n_bindings: 4 },
        BindGroupLayout { handle: BindGroupLayoutHandle { id: 2 }, n_bindings: 1 },
    ];
    let groups =
        CompiledOp::create_storage_bind_groups(&src_refs, &dst, &layouts, &mut device, false)
            .unwrap();
    assert_eq!(groups.len(), 3);
}

#[test]
fn assembler_rejects_inconsistent_layout() {
    let mut device = DeviceCache::new();
    let srcs = [gpu_tensor(vec![4], 0), gpu_tensor(vec![4], 1)];
    let src_refs: Vec<&Tensor> = srcs.iter().collect();
    let dst = gpu_tensor(vec![4], 2);
    let layouts = vec![BindGroupLayout { handle: BindGroupLayoutHandle { id: 0 }, n_bindings: 4 }];
    let r = CompiledOp::create_storage_bind_groups(&src_refs, &dst, &layouts, &mut device, false);
    assert_eq!(
        r.err(),
        Some(OperationError::InconsistentBindings { group: 0, expected: 4, got: 3 })
    );
}

#[test]
fn inplace_omits_destination_binding() {
    let mut device = DeviceCache::new();
    let srcs = [gpu_tensor(vec![4], 0), gpu_tensor(vec![4], 1)];
    let src_refs: Vec<&Tensor> = srcs.iter().collect();
    let dst = gpu_tensor(vec![4], 2);
    let layouts = vec![BindGroupLayout { handle: BindGroupLayoutHandle { id: 0 }, n_bindings: 2 }];
    let groups =
        CompiledOp::create_storage_bind_groups(&src_refs, &dst, &layouts, &mut device, true)
            .unwrap();
    assert_eq!(groups.len(), 1);
}

#[test]
fn assembler_reuses_cached_groups() {
    let mut device = DeviceCache::new();
    let srcs = [gpu_tensor(vec![4], 0)];
    let src_refs: Vec<&Tensor> = srcs.iter().collect();
    let dst = gpu_tensor(vec![4], 1);
    let layouts = vec![BindGroupLayout { handle: BindGroupLayoutHandle { id: 0 }, n_bindings: 2 }];
    let first = CompiledOp::create_storage_bind_groups(&src_refs, &dst, &layouts, &mut device, false)
        .unwrap();
    let second =
        CompiledOp::create_storage_bind_groups(&src_refs, &dst, &layouts, &mut device, false)
            .unwrap();
    assert_eq!(first, second);
}

#[test]
fn layout_descriptor_binding_counts() {
    assert_eq!(BindGroupLayoutDescriptor::unary().n_bindings(), 2);
    assert_eq!(BindGroupLayoutDescriptor::binary().n_bindings(), 3);
    assert_eq!(BindGroupLayoutDescriptor::ternary().n_bindings(), 4);
}

#[test]
fn compiled_op_getters() {
    let wgc = WorkgroupCount { x: 5, y: 3, z: 1 };
    let groups = vec![ratchet_core::gpu::GpuBindGroup { id: 7 }];
    let op = CompiledOp::new(
        ratchet_core::gpu::ComputePipelineHandle { id: 2 },
        wgc,
        groups,
        256,
        String::from("layernorm_vec4"),
    );
    assert_eq!(*op.workgroup_count(), WorkgroupCount { x: 5, y: 3, z: 1 });
    assert_eq!(op.offset(), 256);
    assert_eq!(op.storage_groups().len(), 1);
    assert_eq!(op.pipeline_handle().id, 2);
    assert_eq!(op.kernel_name(), "layernorm_vec4");
}
