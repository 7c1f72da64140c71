//! Matrix-vector product: the kernel and its specialisation.

use crate::device::Device;
use crate::device::DeviceError;
use crate::device::DeviceFeatures;
use crate::dtype::DType;
use crate::dtype::GGUFDType;
use crate::dtype::KernelElement;
use crate::dtype::WgslDType;
use crate::dtype::WgslPrimitive;
use crate::kernel::binding_declarations;
use crate::kernel::texts;
use crate::kernel::BuiltIn;
use crate::kernel::FragmentKind;
use crate::kernel::KernelDraft;
use crate::kernel::OpMetadata;
use crate::kernel::WgslFragment;
use crate::kernel::WgslKernel;
use crate::kernel::WgslKernelBuilder;
use crate::kernel::WorkgroupSize;
use crate::kernel::METADATA_BINDING;
use crate::layout::storage_entries;
use crate::layout::BindGroupLayoutDescriptor;
use crate::tensor::Tensor;
use crate::text::decimal;
use vstd::prelude::*;
use vstd::std_specs::convert::FromSpecImpl;

verus! {

/// A broken precondition of an operation.
#[derive(Clone, Copy, Debug, PartialEq, Eq, Structural)]
pub enum InvariantError {
    /// No kernel exists for an operand that is stored this way.
    UnsupportedDType(DType),
}

/// Why an operation could not be set up.
#[derive(Clone, Copy, Debug, PartialEq, Eq, Structural)]
pub enum OperationError {
    InvariantError(InvariantError),
    DeviceError(DeviceError),
}

impl From<DeviceError> for OperationError {
    fn from(e: DeviceError) -> (r: OperationError) {
        OperationError::DeviceError(e)
    }
}

impl FromSpecImpl<DeviceError> for OperationError {
    open spec fn obeys_from_spec() -> bool {
        true
    }

    open spec fn from_spec(e: DeviceError) -> OperationError {
        OperationError::DeviceError(e)
    }
}

impl From<InvariantError> for OperationError {
    fn from(e: InvariantError) -> (r: OperationError) {
        OperationError::InvariantError(e)
    }
}

impl FromSpecImpl<InvariantError> for OperationError {
    open spec fn obeys_from_spec() -> bool {
        true
    }

    open spec fn from_spec(e: InvariantError) -> OperationError {
        OperationError::InvariantError(e)
    }
}

/// The error for an operand stored as `dt`.
pub open spec fn unsupported(dt: DType) -> OperationError {
    OperationError::InvariantError(InvariantError::UnsupportedDType(dt))
}

pub const META_STRUCT: &'static str =
    "struct Meta {\n    aShape: vec3<i32>,\n    aStrides: vec3<i32>,\n    bShape: vec3<i32>,\n    bStrides: vec3<i32>,\n    outShape: vec3<i32>,\n    outStrides: vec3<i32>,\n    dimAOuter: i32,\n    dimBOuter: i32,\n    dimInner: i32,\n}\n";

pub const VAR_A_OPEN: &'static str = "A: array<";

pub const VAR_X_OPEN: &'static str = "X: array<";

pub const VAR_CLOSE: &'static str = ">;\n";

pub const ROW: &'static str = "    let row = i32(global_invocation_id.x);\n";

pub const ROW_GUARD: &'static str =
    "    if (row >= metadata.aShape.y) {\n        return;\n    }\n";

pub const BATCHES: &'static str =
    "    let batch = i32(global_invocation_id.z);\n    let batchA = batch % metadata.aShape.x;\n    let batchB = batch % metadata.bShape.x;\n";

pub const OFFSET_A: &'static str = "    let aOffset = metadata.aStrides.x * batchA / ";

pub const OFFSET_B: &'static str = ";\n    let bOffset = metadata.bStrides.x * batchB / ";

pub const OFFSET_OUT: &'static str = ";\n    let outOffset = metadata.outStrides.x * batch / ";

pub const STATEMENT_END: &'static str = ";\n";

pub const SUM_OPEN: &'static str = "    var sum = ";

pub const SUM_CLOSE: &'static str = "(0.0);\n";

pub const A_INDEX: &'static str = "    let aIndex = aOffset + row * metadata.aStrides.y / ";

pub const LOOP_OPEN: &'static str =
    "    for (var k = i32(global_invocation_id.y); k < metadata.dimInner; k += ";

pub const LOOP_BODY: &'static str =
    ") {\n        sum = fma(A[aIndex + k], X[bOffset + k], sum);\n    }\n";

pub const Q8_LOOP_OPEN: &'static str =
    "    let sIndex = (aOffset / 4) + row * metadata.aStrides.y / 32;\n    for (var k = i32(global_invocation_id.y); k < metadata.dimInner / 4; k += ";

pub const Q8_LOOP_BODY: &'static str =
    ") {\n        sum = fma(unpack4x8snorm_gguf(A[aIndex + k]) * scale[sIndex + (k / 8)], X[k], sum);\n    }\n";

/// Matrix-vector product of `lhs` and `rhs`, with an optional bias.
#[derive(Clone, Debug)]
pub struct GEMV {
    lhs: Tensor,
    rhs: Tensor,
    bias: Option<Tensor>,
    trans_lhs: bool,
    trans_rhs: bool,
    trans_out: bool,
}

/// The uniform block of the kernel: extents and strides of the operands and
/// of the result, and the three dimensions of the product.
#[allow(non_snake_case)]
#[derive(Clone, Copy, Debug)]
pub struct GEMVMeta {
    pub aShape: [i32; 3],
    pub aStrides: [i32; 3],
    pub bShape: [i32; 3],
    pub bStrides: [i32; 3],
    pub outShape: [i32; 3],
    pub outStrides: [i32; 3],
    pub dimAOuter: i32,
    pub dimBOuter: i32,
    pub dimInner: i32,
}

impl OpMetadata for GEMVMeta {
    open spec fn spec_wgsl() -> Seq<char> {
        META_STRUCT@
    }

    fn render_wgsl() -> (fragment: WgslFragment) {
        WgslFragment::of(META_STRUCT)
    }
}

/// How many operand buffers the kernel reads, for operands stored as `lhs`
/// and `rhs` and with or without a bias. A quantised left operand brings its
/// scales as a buffer of their own. `None` where no kernel exists.
pub open spec fn binding_inputs(lhs: DType, rhs: DType, bias: bool) -> Option<nat> {
    if rhs != DType::F32 {
        None
    } else if lhs == DType::F32 {
        if bias {
            Some(3)
        } else {
            Some(2)
        }
    } else if lhs is GGUF {
        if bias {
            Some(4)
        } else {
            Some(3)
        }
    } else {
        None
    }
}

/// The declarations of the operand buffers: the matrix as an array of
/// single values, the vector as an array of whole elements.
pub open spec fn bind_variables(primitive: WgslPrimitive) -> Seq<Seq<char>> {
    seq![
        VAR_A_OPEN@ + primitive.dt.spec_dt() + VAR_CLOSE@,
        VAR_X_OPEN@ + primitive.spec_render_type() + VAR_CLOSE@,
    ]
}

/// The offsets of the current batch into both operands and the result.
pub open spec fn offsets(width: nat) -> Seq<char> {
    OFFSET_A@ + decimal(width) + OFFSET_B@ + decimal(width) + OFFSET_OUT@ + decimal(width)
        + STATEMENT_END@
}

/// The declaration of the accumulator.
pub open spec fn accumulator(primitive: WgslPrimitive) -> Seq<char> {
    SUM_OPEN@ + primitive.spec_render_type() + SUM_CLOSE@
}

/// The index of the current row in the matrix.
pub open spec fn row_index(width: nat) -> Seq<char> {
    A_INDEX@ + decimal(width) + STATEMENT_END@
}

/// The reduction over the inner dimension, in steps of `stride`. For 8-bit
/// blocks each read is unpacked and scaled by the scale of its block.
pub open spec fn main_loop(q8: bool, stride: nat) -> Seq<char> {
    if q8 {
        Q8_LOOP_OPEN@ + decimal(stride) + Q8_LOOP_BODY@
    } else {
        LOOP_OPEN@ + decimal(stride) + LOOP_BODY@
    }
}

/// The statements of the entry point, in order.
pub open spec fn statements(primitive: WgslPrimitive, q8: bool, stride: nat) -> Seq<
    (FragmentKind, Seq<char>),
> {
    seq![
        (FragmentKind::Statement, ROW@),
        (FragmentKind::Statement, ROW_GUARD@),
        (FragmentKind::Statement, BATCHES@),
        (FragmentKind::Statement, offsets(primitive.spec_width())),
        (FragmentKind::Statement, accumulator(primitive)),
        (FragmentKind::Statement, row_index(primitive.spec_width())),
        (FragmentKind::Statement, main_loop(q8, stride)),
    ]
}

/// The kernel for `inputs` operand buffers, specialised to `primitive`.
pub open spec fn gemv_draft(
    features: DeviceFeatures,
    inputs: nat,
    primitive: WgslPrimitive,
    q8: bool,
    workgroup_size: WorkgroupSize,
) -> KernelDraft {
    KernelDraft {
        workgroup_size,
        builtins: seq![BuiltIn::GlobalInvocationId, BuiltIn::LocalInvocationId, BuiltIn::WorkgroupId],
        features,
        fragments: binding_declarations(storage_entries(inputs), bind_variables(primitive)).push(
            (FragmentKind::Metadata, GEMVMeta::spec_wgsl() + METADATA_BINDING@),
        ) + statements(primitive, q8, workgroup_size.y as nat),
    }
}

/// The shader text for operands stored as `lhs` and `rhs`, the left one on
/// `device`, or the error where no kernel can be had: for an operand that is
/// not on a GPU, for the operand pair, or for the format of a quantised left
/// operand, in this order.
pub open spec fn gemv_source(
    device: Device,
    lhs: DType,
    rhs: DType,
    bias: bool,
    primitive: WgslPrimitive,
    workgroup_size: WorkgroupSize,
) -> Result<Seq<char>, OperationError> {
    match device {
        Device::CPU => Err(OperationError::DeviceError(DeviceError::DeviceMismatch)),
        Device::GPU(features) => match binding_inputs(lhs, rhs, bias) {
            None => Err(unsupported(rhs)),
            Some(inputs) => {
                if lhs is GGUF && lhs != DType::GGUF(GGUFDType::Q8_0) {
                    Err(unsupported(lhs))
                } else {
                    Ok(
                        gemv_draft(
                            features,
                            inputs,
                            primitive,
                            lhs == DType::GGUF(GGUFDType::Q8_0),
                            workgroup_size,
                        ).source(),
                    )
                }
            },
        },
    }
}

/// The shader text of the product as it is requested by an operation: single
/// values of the left operand's own type. Only the two floating-point types
/// have kernels specialised for them; any other left operand is refused.
pub open spec fn gemv_render(
    device: Device,
    lhs: DType,
    rhs: DType,
    bias: bool,
    workgroup_size: WorkgroupSize,
) -> Result<Seq<char>, OperationError> {
    match lhs {
        DType::F32 => gemv_source(
            device,
            lhs,
            rhs,
            bias,
            WgslPrimitive { dt: WgslDType::F32, element: KernelElement::Scalar },
            workgroup_size,
        ),
        DType::F16 => gemv_source(
            device,
            lhs,
            rhs,
            bias,
            WgslPrimitive { dt: WgslDType::F16, element: KernelElement::Scalar },
            workgroup_size,
        ),
        _ => Err(unsupported(lhs)),
    }
}

/// Whether the result of a rendering is the text or the error that was due.
pub open spec fn rendered(
    result: Result<WgslKernel, OperationError>,
    due: Result<Seq<char>, OperationError>,
) -> bool {
    match due {
        Ok(text) => result matches Ok(kernel) && kernel@ == text,
        Err(e) => result == Err::<WgslKernel, OperationError>(e),
    }
}

/// Rendering is a function of its inputs: two renderings for the same
/// device, operand types, bias, element type and workgroup size give the
/// same text, character for character, or fail with the same error.
pub proof fn render_deterministic(
    first: Result<WgslKernel, OperationError>,
    second: Result<WgslKernel, OperationError>,
    device: Device,
    lhs: DType,
    rhs: DType,
    bias: bool,
    primitive: WgslPrimitive,
    workgroup_size: WorkgroupSize,
)
    requires
        rendered(first, gemv_source(device, lhs, rhs, bias, primitive, workgroup_size)),
        rendered(second, gemv_source(device, lhs, rhs, bias, primitive, workgroup_size)),
    ensures
        match (first, second) {
            (Ok(a), Ok(b)) => a@ == b@,
            (Err(e), Err(f)) => e == f,
            _ => false,
        },
{
}

/// What an operation requests is a function of its inputs as well: two
/// renderings for the same device, operand types, bias and workgroup size
/// give the same text, or fail with the same error.
pub proof fn render_scalar_deterministic(
    first: Result<WgslKernel, OperationError>,
    second: Result<WgslKernel, OperationError>,
    device: Device,
    lhs: DType,
    rhs: DType,
    bias: bool,
    workgroup_size: WorkgroupSize,
)
    requires
        rendered(first, gemv_render(device, lhs, rhs, bias, workgroup_size)),
        rendered(second, gemv_render(device, lhs, rhs, bias, workgroup_size)),
    ensures
        match (first, second) {
            (Ok(a), Ok(b)) => a@ == b@,
            (Err(e), Err(f)) => e == f,
            _ => false,
        },
{
}

impl GEMV {
    /// The product of `lhs` and `rhs`.
    pub fn new(
        lhs: Tensor,
        rhs: Tensor,
        bias: Option<Tensor>,
        trans_lhs: bool,
        trans_rhs: bool,
        trans_out: bool,
    ) -> (op: Self)
        ensures
            op.lhs() == lhs,
            op.rhs() == rhs,
            op.bias() == bias,
            op.transposed() == (trans_lhs, trans_rhs, trans_out),
    {
        GEMV { lhs, rhs, bias, trans_lhs, trans_rhs, trans_out }
    }

    /// The left operand, the matrix.
    pub closed spec fn lhs(&self) -> Tensor {
        self.lhs
    }

    /// The right operand, the vector.
    pub closed spec fn rhs(&self) -> Tensor {
        self.rhs
    }

    /// The bias, if there is one.
    pub closed spec fn bias(&self) -> Option<Tensor> {
        self.bias
    }

    /// Whether the left operand, the right operand and the result are
    /// transposed.
    pub closed spec fn transposed(&self) -> (bool, bool, bool) {
        (self.trans_lhs, self.trans_rhs, self.trans_out)
    }

    /// The declarations of the operand buffers.
    pub fn bindvars(&self, primitive: WgslPrimitive, inplace: bool, dst: &Tensor) -> (vars: Vec<
        WgslFragment,
    >)
        ensures
            texts(vars@) == bind_variables(primitive),
    {
        let mut a = WgslFragment::new();
        a.write(VAR_A_OPEN);
        a.write(primitive.dt.dt());
        a.write(VAR_CLOSE);
        let mut x = WgslFragment::new();
        x.write(VAR_X_OPEN);
        primitive.render_type(&mut x);
        x.write(VAR_CLOSE);
        let mut vars: Vec<WgslFragment> = Vec::new();
        vars.push(a);
        vars.push(x);
        assert(texts(vars@) =~= bind_variables(primitive)) by {
            assert(vars@[0]@ =~= VAR_A_OPEN@ + primitive.dt.spec_dt() + VAR_CLOSE@);
            assert(vars@[1]@ =~= VAR_X_OPEN@ + primitive.spec_render_type() + VAR_CLOSE@);
        }
        vars
    }

    /// The layout of the storage buffers: binary for two float operands,
    /// ternary with a bias or with a quantised matrix, four operands with
    /// both. Any other pair of operands is refused, with the storage type of
    /// the right one.
    pub fn storage_bind_group_layout(&self, inplace: bool) -> (r: Result<
        BindGroupLayoutDescriptor,
        OperationError,
    >)
        ensures
            match binding_inputs(
                self.lhs().spec_dt(),
                self.rhs().spec_dt(),
                self.bias() is Some,
            ) {
                Some(inputs) => r matches Ok(layout) && layout@ == storage_entries(inputs),
                None => r == Err::<BindGroupLayoutDescriptor, OperationError>(
                    unsupported(self.rhs().spec_dt()),
                ),
            },
    {
        let layout = match (self.lhs.dt(), self.rhs.dt(), self.bias.is_some()) {
            (DType::F32, DType::F32, false) => BindGroupLayoutDescriptor::binary(),
            (DType::F32, DType::F32, true) => BindGroupLayoutDescriptor::ternary(),
            (DType::GGUF(_), DType::F32, false) => BindGroupLayoutDescriptor::ternary(),
            (DType::GGUF(_), DType::F32, true) => BindGroupLayoutDescriptor::nthary(4),
            _ => {
                return Err(OperationError::from(InvariantError::UnsupportedDType(self.rhs.dt())));
            },
        };
        Ok(layout)
    }

    /// Renders the kernel for single values of the left operand's type.
    pub fn render(&self, inplace: bool, dst: &Tensor, workgroup_size: WorkgroupSize) -> (r: Result<
        WgslKernel,
        OperationError,
    >)
        ensures
            rendered(
                r,
                gemv_render(
                    self.lhs().spec_device(),
                    self.lhs().spec_dt(),
                    self.rhs().spec_dt(),
                    self.bias() is Some,
                    workgroup_size,
                ),
            ),
    {
        let kernel_element = KernelElement::Scalar;
        match (self.lhs.dt(), kernel_element) {
            (DType::F32, element) => self.render_gemv(
                WgslPrimitive::new(WgslDType::F32, element),
                inplace,
                dst,
                workgroup_size,
            ),
            (DType::F16, element) => self.render_gemv(
                WgslPrimitive::new(WgslDType::F16, element),
                inplace,
                dst,
                workgroup_size,
            ),
            (dt, _) => Err(OperationError::from(InvariantError::UnsupportedDType(dt))),
        }
    }

    /// Renders the kernel specialised to `primitive`: the buffer
    /// declarations, the metadata block and the entry point, which finds its
    /// row and batch, leaves when the row is outside the matrix, and reduces
    /// over the inner dimension.
    pub fn render_gemv(
        &self,
        primitive: WgslPrimitive,
        inplace: bool,
        dst: &Tensor,
        workgroup_size: WorkgroupSize,
    ) -> (r: Result<WgslKernel, OperationError>)
        ensures
            rendered(
                r,
                gemv_source(
                    self.lhs().spec_device(),
                    self.lhs().spec_dt(),
                    self.rhs().spec_dt(),
                    self.bias() is Some,
                    primitive,
                    workgroup_size,
                ),
            ),
    {
        let features = match self.lhs.device().try_gpu() {
            Ok(features) => features,
            Err(e) => {
                return Err(OperationError::from(e));
            },
        };
        let mut kernel_builder = WgslKernelBuilder::new(
            workgroup_size,
            vec![BuiltIn::GlobalInvocationId, BuiltIn::LocalInvocationId, BuiltIn::WorkgroupId],
            features,
        );
        let bindings = match self.storage_bind_group_layout(inplace) {
            Ok(bindings) => bindings,
            Err(e) => {
                return Err(e);
            },
        };
        let bind_vars = self.bindvars(primitive, inplace, dst);
        kernel_builder.write_bindings(&bindings, bind_vars);
        kernel_builder.write_metadata::<GEMVMeta>();

        let workgroup_size_y = workgroup_size.y as u64;
        let n = primitive.element.width();
        let mut reduction = WgslFragment::new();
        let q8 = match self.lhs.dt() {
            DType::GGUF(g) => match g {
                GGUFDType::Q8_0 => {
                    reduction.write(Q8_LOOP_OPEN);
                    reduction.write_number(workgroup_size_y);
                    reduction.write(Q8_LOOP_BODY);
                    true
                },
                _ => {
                    return Err(
                        OperationError::from(InvariantError::UnsupportedDType(self.lhs.dt())),
                    );
                },
            },
            _ => {
                reduction.write(LOOP_OPEN);
                reduction.write_number(workgroup_size_y);
                reduction.write(LOOP_BODY);
                false
            },
        };
        assert(reduction@ =~= main_loop(q8, workgroup_size.y as nat));

        kernel_builder.write_main(WgslFragment::of(ROW));
        kernel_builder.write_main(WgslFragment::of(ROW_GUARD));
        kernel_builder.write_main(WgslFragment::of(BATCHES));

        let mut offset = WgslFragment::new();
        offset.write(OFFSET_A);
        offset.write_number(n);
        offset.write(OFFSET_B);
        offset.write_number(n);
        offset.write(OFFSET_OUT);
        offset.write_number(n);
        offset.write(STATEMENT_END);
        assert(offset@ =~= offsets(primitive.spec_width()));
        kernel_builder.write_main(offset);

        let mut sum = WgslFragment::new();
        sum.write(SUM_OPEN);
        primitive.render_type(&mut sum);
        sum.write(SUM_CLOSE);
        assert(sum@ =~= accumulator(primitive));
        kernel_builder.write_main(sum);

        let mut a_index = WgslFragment::new();
        a_index.write(A_INDEX);
        a_index.write_number(n);
        a_index.write(STATEMENT_END);
        assert(a_index@ =~= row_index(primitive.spec_width()));
        kernel_builder.write_main(a_index);

        kernel_builder.write_main(reduction);

        proof {
            let inputs = binding_inputs(
                self.lhs().spec_dt(),
                self.rhs().spec_dt(),
                self.bias() is Some,
            )->0;
            let draft = gemv_draft(features, inputs, primitive, q8, workgroup_size);
            assert(kernel_builder@.fragments =~= draft.fragments);
            assert(kernel_builder@ == draft);
        }
        Ok(kernel_builder.render())
    }
}

} // verus!
