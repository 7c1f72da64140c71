use ratchet_core::device::Device;
use ratchet_core::device::DeviceFeatures;
use ratchet_core::dtype::DType;
use ratchet_core::dtype::GGUFDType;
use ratchet_core::gemv::InvariantError;
use ratchet_core::gemv::OperationError;
use ratchet_core::gemv::GEMV;
use ratchet_core::kernel::BuiltIn;
use ratchet_core::kernel::WgslFragment;
use ratchet_core::kernel::WgslKernel;
use ratchet_core::kernel::WgslKernelBuilder;
use ratchet_core::kernel::WorkgroupSize;
use ratchet_core::pipeline_pool::module_compiled;
use ratchet_core::pipeline_pool::module_request;
use ratchet_core::pipeline_pool::pipeline_request;
use ratchet_core::pipeline_pool::resolve_source;
use ratchet_core::pipeline_pool::CompileMode;
use ratchet_core::pipeline_pool::ComputePipelineDescriptor;
use ratchet_core::pipeline_pool::ComputePipelineHandle;
use ratchet_core::pipeline_pool::ComputePipelinePool;
use ratchet_core::pipeline_pool::PipelineContext;
use ratchet_core::pipeline_pool::PipelineError;
use ratchet_core::pipeline_pool::PipelineRequest;
use ratchet_core::pipeline_pool::ShaderModuleRequest;
use ratchet_core::pool::PoolError;
use ratchet_core::pool::StaticResourcePool;
use ratchet_core::pools::KernelSourceHandle;
use ratchet_core::pools::KernelSourcePool;
use ratchet_core::pools::PipelineLayoutDescriptor;
use ratchet_core::pools::PipelineLayoutHandle;
use ratchet_core::pools::PipelineLayoutPool;
use ratchet_core::registry::KernelKey;
use ratchet_core::registry::KernelRegistry;
use ratchet_core::slots::SlotKey;
use ratchet_core::tensor::Tensor;
use std::cell::Cell;
use wgpu::naga::front::wgsl::parse_str;

const ADD_KERNEL: &str = "@compute @workgroup_size(1)\nfn main() {\n}\n";

/// What stands for a compiled pipeline here: what it was created with.
#[derive(Debug, PartialEq)]
struct Built {
    label: String,
    layout: PipelineLayoutHandle,
    entry_point: String,
    zero_initialize_workgroup_memory: bool,
    source: String,
    mode: CompileMode,
}

struct Module {
    source: String,
    mode: CompileMode,
}

fn gpu() -> Device {
    Device::GPU(DeviceFeatures { SHADER_F16: false })
}

fn product(lhs: DType) -> GEMV {
    GEMV::new(
        Tensor::new(lhs, vec![128, 128], gpu()),
        Tensor::new(DType::F32, vec![128, 1], gpu()),
        None,
        false,
        false,
        false,
    )
}

fn compile(request: &ShaderModuleRequest) -> Result<Module, String> {
    if request.mode == CompileMode::Checked {
        if let Err(e) = parse_str(&request.source) {
            return Err(e.to_string());
        }
    }
    Ok(Module { source: request.source.clone(), mode: request.mode })
}

fn create(request: &PipelineRequest, module: Module) -> Built {
    Built {
        label: request.label.clone(),
        layout: request.layout,
        entry_point: request.entry_point.clone(),
        zero_initialize_workgroup_memory: request.zero_initialize_workgroup_memory,
        source: module.source,
        mode: module.mode,
    }
}

fn one_layout(layouts: &mut PipelineLayoutPool<u32>) -> PipelineLayoutHandle {
    layouts.get_or_create(&PipelineLayoutDescriptor { entries: vec![] }, |_| 0)
}

fn registry() -> KernelRegistry {
    let mut registry = KernelRegistry::new();
    assert!(registry.register("add", ADD_KERNEL));
    registry
}

fn malformed() -> WgslKernel {
    let mut builder = WgslKernelBuilder::new(
        WorkgroupSize::new(1, 1, 1),
        vec![BuiltIn::GlobalInvocationId],
        DeviceFeatures { SHADER_F16: false },
    );
    let mut statement = WgslFragment::new();
    statement.write("    let broken = ;\n");
    builder.write_main(statement);
    builder.render()
}

#[test]
fn scenario_pipeline_for_float_product() {
    let registry = registry();
    let mut sources = KernelSourcePool::new();
    let mut layouts: PipelineLayoutPool<u32> = StaticResourcePool::new();
    let layout = one_layout(&mut layouts);
    let key = KernelKey::new("gemv_f32_scalar");
    let dst = Tensor::new(DType::F32, vec![128, 1], gpu());
    let source = sources
        .get_or_create(&key, &product(DType::F32), false, &dst, WorkgroupSize::new(16, 16, 1))
        .unwrap();
    let desc = ComputePipelineDescriptor {
        pipeline_layout: layout,
        kernel_key: KernelKey::new("gemv_f32_scalar"),
        compute_module: Some(source),
    };
    let context =
        PipelineContext { registry: &registry, sources: &sources, layouts: &layouts, checked: true };
    let mut pipelines: ComputePipelinePool<Built> = ComputePipelinePool::new();
    let handle = pipelines.get_or_create(&desc, &context, compile, create).unwrap();
    let built = pipelines.get(handle).unwrap();
    assert_eq!(built.label, "gemv_f32_scalar");
    assert_eq!(built.layout, layout);
    assert_eq!(built.entry_point, "main");
    assert!(!built.zero_initialize_workgroup_memory);
    assert_eq!(built.mode, CompileMode::Checked);
    assert!(built.source.contains("sum = fma(A[aIndex + k], X[bOffset + k], sum);"));
    assert!(built.source.contains("if (row >= metadata.aShape.y) {"));
    assert!(built.source.contains("k < metadata.dimInner; k += 16)"));
    assert_eq!(&built.source, sources.get(source).unwrap());
}

#[test]
fn scenario_same_request_twice_builds_once() {
    let registry = registry();
    let mut sources = KernelSourcePool::new();
    let mut layouts: PipelineLayoutPool<u32> = StaticResourcePool::new();
    let layout = one_layout(&mut layouts);
    let dst = Tensor::new(DType::F32, vec![128, 1], gpu());
    let s1 = sources
        .get_or_create(
            &KernelKey::new("gemv"),
            &product(DType::F32),
            false,
            &dst,
            WorkgroupSize::new(16, 16, 1),
        )
        .unwrap();
    let s2 = sources
        .get_or_create(
            &KernelKey::new("gemv"),
            &product(DType::F32),
            false,
            &dst,
            WorkgroupSize::new(16, 16, 1),
        )
        .unwrap();
    assert_eq!(s1, s2);
    assert_eq!(sources.len(), 1);

    let compiled = Cell::new(0usize);
    let created = Cell::new(0usize);
    let context =
        PipelineContext { registry: &registry, sources: &sources, layouts: &layouts, checked: false };
    let mut pipelines: ComputePipelinePool<Built> = ComputePipelinePool::new();
    let mut handles: Vec<ComputePipelineHandle> = Vec::new();
    for _ in 0..2 {
        let desc = ComputePipelineDescriptor {
            pipeline_layout: layout,
            kernel_key: KernelKey::new("gemv"),
            compute_module: Some(s1),
        };
        handles.push(
            pipelines
                .get_or_create(
                    &desc,
                    &context,
                    |request: &ShaderModuleRequest| {
                        compiled.set(compiled.get() + 1);
                        compile(request)
                    },
                    |request: &PipelineRequest, module: Module| {
                        created.set(created.get() + 1);
                        create(request, module)
                    },
                )
                .unwrap(),
        );
    }
    assert_eq!(handles[0], handles[1]);
    assert_eq!(pipelines.len(), 1);
    assert_eq!(compiled.get(), 1);
    assert_eq!(created.get(), 1);
}

#[test]
fn scenario_unsupported_quantized_format() {
    let mut sources = KernelSourcePool::new();
    let dst = Tensor::new(DType::F32, vec![128, 1], gpu());
    let lhs = DType::GGUF(GGUFDType::Q4K);
    let r = sources.get_or_create(
        &KernelKey::new("gemv_q4k"),
        &product(lhs),
        false,
        &dst,
        WorkgroupSize::new(16, 16, 1),
    );
    assert_eq!(
        r.unwrap_err(),
        OperationError::InvariantError(InvariantError::UnsupportedDType(lhs))
    );
    assert_eq!(sources.len(), 0);
    assert!(product(lhs).render(false, &dst, WorkgroupSize::new(16, 16, 1)).is_err());
}

#[test]
fn scenario_checked_and_unchecked_compilation() {
    let registry = registry();
    let mut sources = KernelSourcePool::new();
    let mut layouts: PipelineLayoutPool<u32> = StaticResourcePool::new();
    let layout = one_layout(&mut layouts);
    let source = sources.get_or_render(&KernelKey::new("broken"), || Ok(malformed())).unwrap();
    let text = sources.get(source).unwrap().clone();
    assert!(parse_str(&text).is_err());
    let desc = ComputePipelineDescriptor {
        pipeline_layout: layout,
        kernel_key: KernelKey::new("broken"),
        compute_module: Some(source),
    };

    let checked =
        PipelineContext { registry: &registry, sources: &sources, layouts: &layouts, checked: true };
    let mut pipelines: ComputePipelinePool<Built> = ComputePipelinePool::new();
    match pipelines.get_or_create(&desc, &checked, compile, create) {
        Err(PipelineError::ShaderValidation { source, message }) => {
            assert_eq!(source, text);
            assert!(!message.is_empty());
        }
        other => panic!("expected a validation error, got {:?}", other),
    }
    assert_eq!(pipelines.len(), 0);
    assert!(matches!(
        pipelines.get_or_create(&desc, &checked, compile, create),
        Err(PipelineError::ShaderValidation { .. })
    ));
    assert_eq!(pipelines.len(), 0);

    let unchecked =
        PipelineContext { registry: &registry, sources: &sources, layouts: &layouts, checked: false };
    let handle = pipelines.get_or_create(&desc, &unchecked, compile, create).unwrap();
    assert_eq!(pipelines.len(), 1);
    assert_eq!(pipelines.get(handle).unwrap().mode, CompileMode::Unchecked);
    assert_eq!(pipelines.get(handle).unwrap().source, text);
}

#[test]
fn valid_source_compiles_in_both_modes() {
    let registry = registry();
    let sources = KernelSourcePool::new();
    let mut layouts: PipelineLayoutPool<u32> = StaticResourcePool::new();
    let layout = one_layout(&mut layouts);
    let desc = ComputePipelineDescriptor {
        pipeline_layout: layout,
        kernel_key: KernelKey::new("add"),
        compute_module: None,
    };
    for checked in [true, false] {
        let context =
            PipelineContext { registry: &registry, sources: &sources, layouts: &layouts, checked };
        let mut pipelines: ComputePipelinePool<Built> = ComputePipelinePool::new();
        let handle = pipelines.get_or_create(&desc, &context, compile, create).unwrap();
        let built = pipelines.get(handle).unwrap();
        assert_eq!(built.source, ADD_KERNEL);
        assert_eq!(built.label, "add");
        assert_eq!(built.mode, CompileMode::from_flag(checked));
    }
}

#[test]
fn kernel_not_found_fails_every_time() {
    let registry = registry();
    let sources = KernelSourcePool::new();
    let mut layouts: PipelineLayoutPool<u32> = StaticResourcePool::new();
    let layout = one_layout(&mut layouts);
    let desc = ComputePipelineDescriptor {
        pipeline_layout: layout,
        kernel_key: KernelKey::new("missing"),
        compute_module: None,
    };
    let context =
        PipelineContext { registry: &registry, sources: &sources, layouts: &layouts, checked: false };
    let mut pipelines: ComputePipelinePool<Built> = ComputePipelinePool::new();
    for _ in 0..2 {
        match pipelines.get_or_create(&desc, &context, compile, create) {
            Err(PipelineError::KernelNotFound(name)) => assert_eq!(name, "missing"),
            other => panic!("expected a missing kernel, got {:?}", other),
        }
        assert_eq!(pipelines.len(), 0);
        assert_eq!(pipelines.find(&desc), None);
    }
}

#[test]
fn unknown_source_and_layout_handles_are_refused() {
    let registry = registry();
    let sources = KernelSourcePool::new();
    let mut layouts: PipelineLayoutPool<u32> = StaticResourcePool::new();
    let layout = one_layout(&mut layouts);
    let mut other: PipelineLayoutPool<u32> = StaticResourcePool::new();
    one_layout(&mut other);
    let foreign =
        other.get_or_create(&PipelineLayoutDescriptor { entries: vec![] }, |_| 0);
    let mut more: PipelineLayoutPool<u32> = StaticResourcePool::new();
    one_layout(&mut more);
    let binding = ratchet_core::pools::BindGroupLayoutHandle(SlotKey::null_key());
    let foreign_layout =
        more.get_or_create(&PipelineLayoutDescriptor { entries: vec![binding] }, |_| 0);
    assert_eq!(foreign, layout);
    let context =
        PipelineContext { registry: &registry, sources: &sources, layouts: &layouts, checked: false };
    let mut pipelines: ComputePipelinePool<Built> = ComputePipelinePool::new();

    let null_source = ComputePipelineDescriptor {
        pipeline_layout: layout,
        kernel_key: KernelKey::new("add"),
        compute_module: Some(KernelSourceHandle(SlotKey::null_key())),
    };
    assert!(matches!(
        pipelines.get_or_create(&null_source, &context, compile, create),
        Err(PipelineError::Pool(PoolError::NullHandle))
    ));
    let unknown_source = ComputePipelineDescriptor {
        pipeline_layout: layout,
        kernel_key: KernelKey::new("add"),
        compute_module: Some(KernelSourceHandle(layout.0)),
    };
    assert!(matches!(
        pipelines.get_or_create(&unknown_source, &context, compile, create),
        Err(PipelineError::Pool(PoolError::UnknownHandle))
    ));
    let unknown_layout = ComputePipelineDescriptor {
        pipeline_layout: foreign_layout,
        kernel_key: KernelKey::new("add"),
        compute_module: None,
    };
    assert!(matches!(
        pipelines.get_or_create(&unknown_layout, &context, compile, create),
        Err(PipelineError::Pool(PoolError::UnknownHandle))
    ));
    let null_layout = ComputePipelineDescriptor {
        pipeline_layout: PipelineLayoutHandle(SlotKey::null_key()),
        kernel_key: KernelKey::new("add"),
        compute_module: None,
    };
    assert!(matches!(
        pipelines.get_or_create(&null_layout, &context, compile, create),
        Err(PipelineError::Pool(PoolError::NullHandle))
    ));
    assert_eq!(pipelines.len(), 0);
}

#[test]
fn descriptors_differ_in_each_field() {
    let registry = {
        let mut registry = registry();
        registry.register("sub", ADD_KERNEL);
        registry
    };
    let mut sources = KernelSourcePool::new();
    let dst = Tensor::new(DType::F32, vec![128, 1], gpu());
    let generated = sources
        .get_or_create(
            &KernelKey::new("add"),
            &product(DType::F32),
            false,
            &dst,
            WorkgroupSize::new(16, 16, 1),
        )
        .unwrap();
    let mut layouts: PipelineLayoutPool<u32> = StaticResourcePool::new();
    let layout = one_layout(&mut layouts);
    let binding = ratchet_core::pools::BindGroupLayoutHandle(SlotKey::null_key());
    let wider = layouts.get_or_create(&PipelineLayoutDescriptor { entries: vec![binding] }, |_| 1);
    let context =
        PipelineContext { registry: &registry, sources: &sources, layouts: &layouts, checked: false };
    let mut pipelines: ComputePipelinePool<Built> = ComputePipelinePool::new();
    let base = pipelines
        .get_or_create(
            &ComputePipelineDescriptor {
                pipeline_layout: layout,
                kernel_key: KernelKey::new("add"),
                compute_module: None,
            },
            &context,
            compile,
            create,
        )
        .unwrap();
    let other_layout = pipelines
        .get_or_create(
            &ComputePipelineDescriptor {
                pipeline_layout: wider,
                kernel_key: KernelKey::new("add"),
                compute_module: None,
            },
            &context,
            compile,
            create,
        )
        .unwrap();
    let other_key = pipelines
        .get_or_create(
            &ComputePipelineDescriptor {
                pipeline_layout: layout,
                kernel_key: KernelKey::new("sub"),
                compute_module: None,
            },
            &context,
            compile,
            create,
        )
        .unwrap();
    let other_module = pipelines
        .get_or_create(
            &ComputePipelineDescriptor {
                pipeline_layout: layout,
                kernel_key: KernelKey::new("add"),
                compute_module: Some(generated),
            },
            &context,
            compile,
            create,
        )
        .unwrap();
    let handles = [base, other_layout, other_key, other_module];
    for i in 0..4 {
        for j in 0..4 {
            assert_eq!(handles[i] == handles[j], i == j);
        }
    }
    assert_eq!(pipelines.len(), 4);
    assert_eq!(pipelines.get(other_layout).unwrap().layout, wider);
    assert_eq!(pipelines.get(other_key).unwrap().label, "sub");
    assert_eq!(pipelines.get(base).unwrap().source, ADD_KERNEL);
    assert_eq!(&pipelines.get(other_module).unwrap().source, sources.get(generated).unwrap());
    let resources = pipelines.resources();
    assert_eq!(resources.get(base).unwrap().label, "add");
}

#[test]
fn assembly_steps_one_by_one() {
    let registry = registry();
    let sources = KernelSourcePool::new();
    let mut layouts: PipelineLayoutPool<u32> = StaticResourcePool::new();
    let layout = one_layout(&mut layouts);
    let desc = ComputePipelineDescriptor {
        pipeline_layout: layout,
        kernel_key: KernelKey::new("add"),
        compute_module: None,
    };
    assert_eq!(resolve_source(&desc, &registry, &sources).unwrap(), ADD_KERNEL);
    let request = module_request(&desc, &registry, &sources, true).unwrap();
    assert_eq!(request.label, "add");
    assert_eq!(request.source, ADD_KERNEL);
    assert_eq!(request.mode, CompileMode::Checked);
    assert_eq!(
        module_request(&desc, &registry, &sources, false).unwrap().mode,
        CompileMode::Unchecked
    );
    assert_eq!(module_compiled(&request, Ok::<u8, String>(9)).unwrap(), 9);
    match module_compiled::<u8>(&request, Err(String::from("no"))) {
        Err(PipelineError::ShaderValidation { source, message }) => {
            assert_eq!(source, ADD_KERNEL);
            assert_eq!(message, "no");
        }
        other => panic!("expected a validation error, got {:?}", other),
    }
    let request = pipeline_request(&desc, &layouts).unwrap();
    assert_eq!(request.label, "add");
    assert_eq!(request.layout, layout);
    assert_eq!(request.entry_point, "main");
    assert!(!request.zero_initialize_workgroup_memory);
    let mut pipelines: ComputePipelinePool<u8> = ComputePipelinePool::new();
    assert_eq!(pipelines.find(&desc), None);
    let handle = pipelines.insert(&desc, 9);
    assert_eq!(pipelines.find(&desc), Some(handle));
    assert!(pipelines.contains(handle));
    assert_eq!(pipelines.get(handle), Ok(&9));
}

#[test]
fn kernel_source_pool_renders_once_per_key() {
    let mut sources = KernelSourcePool::new();
    let rendered = Cell::new(0usize);
    let first = sources
        .get_or_render(&KernelKey::new("k"), || {
            rendered.set(rendered.get() + 1);
            Ok(malformed())
        })
        .unwrap();
    let second = sources
        .get_or_render(&KernelKey::new("k"), || {
            rendered.set(rendered.get() + 1);
            Err(OperationError::InvariantError(InvariantError::UnsupportedDType(DType::I32)))
        })
        .unwrap();
    assert_eq!(first, second);
    assert_eq!(rendered.get(), 1);
    let failed = sources.get_or_render(&KernelKey::new("other"), || {
        Err(OperationError::InvariantError(InvariantError::UnsupportedDType(DType::I32)))
    });
    assert_eq!(
        failed,
        Err(OperationError::InvariantError(InvariantError::UnsupportedDType(DType::I32)))
    );
    assert_eq!(sources.len(), 1);
    assert!(sources.contains(first));
    assert_eq!(sources.get(first).unwrap(), malformed().as_str());
    assert_eq!(sources.resources().get(first).unwrap(), malformed().as_str());
    assert_eq!(
        sources.get(KernelSourceHandle(SlotKey::null_key())),
        Err(PoolError::NullHandle)
    );
}
