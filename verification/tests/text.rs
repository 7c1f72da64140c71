use ratchet_core::device::DeviceError;
use ratchet_core::device::DeviceFeatures;
use ratchet_core::dtype::DType;
use ratchet_core::dtype::GGUFDType;
use ratchet_core::dtype::KernelElement;
use ratchet_core::dtype::WgslDType;
use ratchet_core::dtype::WgslPrimitive;
use ratchet_core::gemv::GEMVMeta;
use ratchet_core::gemv::InvariantError;
use ratchet_core::gemv::OperationError;
use ratchet_core::kernel::BuiltIn;
use ratchet_core::kernel::OpMetadata;
use ratchet_core::kernel::WgslFragment;
use ratchet_core::kernel::WgslKernelBuilder;
use ratchet_core::kernel::WorkgroupSize;
use ratchet_core::layout::BindGroupLayoutDescriptor;
use ratchet_core::layout::BindGroupLayoutEntry;
use ratchet_core::registry::KernelKey;
use ratchet_core::registry::KernelRegistry;
use ratchet_core::residual_block::steps;
use ratchet_core::residual_block::tensor_key;
use ratchet_core::residual_block::tensor_keys;
use ratchet_core::residual_block::tensor_names;
use ratchet_core::residual_block::Step;
use ratchet_core::tensor::Tensor;
use ratchet_core::text::decimal_string;
use ratchet_core::text::digit_str;
use ratchet_core::text::write_decimal;

#[test]
fn decimal_numerals() {
    assert_eq!(decimal_string(0), "0");
    assert_eq!(decimal_string(7), "7");
    assert_eq!(decimal_string(10), "10");
    assert_eq!(decimal_string(16), "16");
    assert_eq!(decimal_string(909), "909");
    assert_eq!(decimal_string(1_073_741_823), "1073741823");
    assert_eq!(decimal_string(u64::MAX), "18446744073709551615");
    for n in [1u64, 9, 11, 99, 100, 101, 4096, 65_535, 4_294_967_295] {
        assert_eq!(decimal_string(n), n.to_string());
    }
    for d in 0..10u64 {
        assert_eq!(digit_str(d), d.to_string());
    }
    let mut out = String::from("n = ");
    write_decimal(&mut out, 120);
    assert_eq!(out, "n = 120");
}

#[test]
fn element_types_by_name() {
    let name = |dt, element| {
        let mut out = WgslFragment::new();
        WgslPrimitive::new(dt, element).render_type(&mut out);
        String::from(out.as_str())
    };
    assert_eq!(WgslDType::F32.dt(), "f32");
    assert_eq!(WgslDType::F16.dt(), "f16");
    assert_eq!(name(WgslDType::F32, KernelElement::Scalar), "f32");
    assert_eq!(name(WgslDType::F32, KernelElement::Vec2), "vec2<f32>");
    assert_eq!(name(WgslDType::F32, KernelElement::Vec4), "vec4<f32>");
    assert_eq!(name(WgslDType::F16, KernelElement::Scalar), "f16");
    assert_eq!(name(WgslDType::F16, KernelElement::Vec2), "vec2<f16>");
    assert_eq!(name(WgslDType::F16, KernelElement::Vec4), "vec4<f16>");
    assert_eq!(KernelElement::Scalar.width(), 1);
    assert_eq!(KernelElement::Vec2.width(), 2);
    assert_eq!(KernelElement::Vec4.width(), 4);
    assert!(DType::GGUF(GGUFDType::Q6K).is_quantized());
    assert!(!DType::F16.is_quantized());
}

#[test]
fn layouts_have_one_written_slot_after_the_operands() {
    let slots = |d: BindGroupLayoutDescriptor| -> Vec<(u32, bool)> {
        d.entries.iter().map(|e| (e.binding, e.read_only)).collect()
    };
    assert_eq!(slots(BindGroupLayoutDescriptor::unary()), vec![(0, true), (1, false)]);
    assert_eq!(
        slots(BindGroupLayoutDescriptor::binary()),
        vec![(0, true), (1, true), (2, false)]
    );
    assert_eq!(
        slots(BindGroupLayoutDescriptor::ternary()),
        vec![(0, true), (1, true), (2, true), (3, false)]
    );
    assert_eq!(slots(BindGroupLayoutDescriptor::nthary(0)), vec![(0, false)]);
    assert_eq!(BindGroupLayoutDescriptor::nthary(9).entries.len(), 10);
    assert_eq!(
        BindGroupLayoutEntry::compute_storage_buffer(3, true),
        BindGroupLayoutEntry { binding: 3, read_only: true }
    );
}

#[test]
fn builder_orders_fragments_by_kind() {
    let mut builder = WgslKernelBuilder::new(
        WorkgroupSize::new(64, 1, 1),
        vec![BuiltIn::LocalInvocationIndex, BuiltIn::NumWorkgroups],
        DeviceFeatures { SHADER_F16: false },
    );
    let mut first = WgslFragment::new();
    first.write("    let a = 1;\n");
    builder.write_main(first);
    builder.write_metadata::<GEMVMeta>();
    let mut y = WgslFragment::new();
    y.write("Y: array<u32>;\n");
    let mut out = WgslFragment::new();
    out.write("O: array<u32>;\n");
    let mut unused = WgslFragment::new();
    unused.write("never\n");
    builder.write_bindings(&BindGroupLayoutDescriptor::unary(), vec![y, out, unused]);
    let mut second = WgslFragment::new();
    second.write("    let b = ");
    second.write_number(20);
    second.write(";\n");
    builder.write_main(second);
    let text = builder.render().to_string();
    let expected = String::from("@group(0) @binding(0) var<storage, read> Y: array<u32>;\n")
        + "@group(0) @binding(1) var<storage, read_write> O: array<u32>;\n"
        + GEMVMeta::render_wgsl().as_str()
        + "@group(1) @binding(0) var<uniform> metadata: Meta;\n"
        + "@compute @workgroup_size(64, 1, 1)\n"
        + "fn main(\n"
        + "    @builtin(local_invocation_index) local_invocation_index: u32,\n"
        + "    @builtin(num_workgroups) num_workgroups: vec3<u32>,\n"
        + ") {\n"
        + "    let a = 1;\n"
        + "    let b = 20;\n"
        + "}\n";
    assert_eq!(text, expected);
}

#[test]
fn builder_pairs_bindings_for_as_long_as_both_last() {
    let mut builder = WgslKernelBuilder::new(
        WorkgroupSize::new(1, 1, 1),
        vec![],
        DeviceFeatures { SHADER_F16: false },
    );
    let mut only = WgslFragment::new();
    only.write("A: array<f32>;\n");
    builder.write_bindings(&BindGroupLayoutDescriptor::ternary(), vec![only]);
    assert_eq!(
        builder.render().as_str(),
        "@group(0) @binding(0) var<storage, read> A: array<f32>;\n@compute @workgroup_size(1, 1, 1)\nfn main(\n) {\n}\n"
    );
}

#[test]
fn every_builtin_has_its_parameter() {
    assert_eq!(
        BuiltIn::LocalInvocationId.render(),
        "    @builtin(local_invocation_id) local_invocation_id: vec3<u32>,\n"
    );
    assert_eq!(
        BuiltIn::GlobalInvocationId.render(),
        "    @builtin(global_invocation_id) global_invocation_id: vec3<u32>,\n"
    );
    assert_eq!(BuiltIn::WorkgroupId.render(), "    @builtin(workgroup_id) workgroup_id: vec3<u32>,\n");
    assert_eq!(
        BuiltIn::NumWorkgroups.render(),
        "    @builtin(num_workgroups) num_workgroups: vec3<u32>,\n"
    );
    assert_eq!(
        BuiltIn::LocalInvocationIndex.render(),
        "    @builtin(local_invocation_index) local_invocation_index: u32,\n"
    );
    let mut line = String::new();
    WorkgroupSize::new(256, 2, 10).write_attribute(&mut line);
    assert_eq!(line, "@compute @workgroup_size(256, 2, 10)\n");
}

#[test]
fn metadata_block_lists_shapes_strides_and_dimensions() {
    let block = GEMVMeta::render_wgsl();
    let text = block.as_str();
    assert!(text.starts_with("struct Meta {\n"));
    assert!(text.ends_with("}\n"));
    for field in [
        "aShape: vec3<i32>",
        "aStrides: vec3<i32>",
        "bShape: vec3<i32>",
        "bStrides: vec3<i32>",
        "outShape: vec3<i32>",
        "outStrides: vec3<i32>",
        "dimAOuter: i32",
        "dimBOuter: i32",
        "dimInner: i32",
    ] {
        assert!(text.contains(&format!("    {},\n", field)));
    }
}

#[test]
fn registry_keeps_the_first_source_of_a_name() {
    let mut registry = KernelRegistry::new();
    assert_eq!(registry.len(), 0);
    assert_eq!(registry.get("add"), None);
    assert!(registry.register("add", "first"));
    assert!(registry.register("mul", "second"));
    assert!(!registry.register("add", "third"));
    assert_eq!(registry.len(), 2);
    assert_eq!(registry.get("add"), Some("first"));
    assert_eq!(registry.get("mul"), Some("second"));
    assert_eq!(registry.get("ad"), None);
    assert_eq!(registry.get(""), None);
    assert_eq!(KernelKey::new("add").as_str(), "add");
}

#[test]
fn tensor_describes_an_operand() {
    let device = ratchet_core::device::Device::CPU;
    let t = Tensor::new(DType::I32, vec![2, 3, 4], device);
    assert_eq!(t.dt(), DType::I32);
    assert_eq!(t.shape(), &vec![2, 3, 4]);
    assert_eq!(t.rank(), 3);
    assert_eq!(t.device(), device);
}

#[test]
fn errors_convert() {
    assert_eq!(
        OperationError::from(InvariantError::UnsupportedDType(DType::U32)),
        OperationError::InvariantError(InvariantError::UnsupportedDType(DType::U32))
    );
    assert_eq!(
        OperationError::from(DeviceError::DeviceMismatch),
        OperationError::DeviceError(DeviceError::DeviceMismatch)
    );
}

#[test]
fn tensor_keys_name_block_and_tensor() {
    assert_eq!(tensor_key("encoder", 0, "attn_ln.weight"), "encoder.blocks.0.attn_ln.weight");
    assert_eq!(tensor_key("decoder", 31, "mlp.2.bias"), "decoder.blocks.31.mlp.2.bias");
    assert_eq!(tensor_key("", 100, ""), ".blocks.100.");
}

#[test]
fn block_tensors_in_reading_order() {
    let without = vec![
        "attn_ln.weight",
        "attn_ln.bias",
        "attn.query.weight",
        "attn.query.bias",
        "attn.key.weight",
        "attn.value.weight",
        "attn.value.bias",
        "attn.out.weight",
        "attn.out.bias",
        "mlp_ln.weight",
        "mlp_ln.bias",
        "mlp.0.weight",
        "mlp.0.bias",
        "mlp.2.weight",
        "mlp.2.bias",
    ];
    assert_eq!(tensor_names(false), without);
    let with = tensor_names(true);
    assert_eq!(with.len(), 24);
    assert_eq!(&with[..9], &without[..9]);
    assert_eq!(
        &with[9..18],
        &[
            "cross_attn_ln.weight",
            "cross_attn_ln.bias",
            "cross_attn.query.weight",
            "cross_attn.query.bias",
            "cross_attn.key.weight",
            "cross_attn.value.weight",
            "cross_attn.value.bias",
            "cross_attn.out.weight",
            "cross_attn.out.bias",
        ]
    );
    assert_eq!(&with[18..], &without[9..]);
    let keys = tensor_keys("decoder", 3, true);
    assert_eq!(keys.len(), 24);
    assert_eq!(keys[0], "decoder.blocks.3.attn_ln.weight");
    assert_eq!(keys[13], "decoder.blocks.3.cross_attn.key.weight");
    assert_eq!(keys[23], "decoder.blocks.3.mlp.2.bias");
    assert_eq!(tensor_keys("encoder", 12, false)[14], "encoder.blocks.12.mlp.2.bias");
}

#[test]
fn cross_attention_needs_attention_and_norm() {
    let plain = vec![Step::AttentionNorm, Step::Attention, Step::Residual, Step::MlpNorm, Step::Mlp, Step::Residual];
    let crossed = vec![
        Step::AttentionNorm,
        Step::Attention,
        Step::Residual,
        Step::CrossAttentionNorm,
        Step::CrossAttention,
        Step::Residual,
        Step::MlpNorm,
        Step::Mlp,
        Step::Residual,
    ];
    assert_eq!(steps(true, true), crossed);
    assert_eq!(steps(true, false), plain);
    assert_eq!(steps(false, true), plain);
    assert_eq!(steps(false, false), plain);
}
