//! Compute pipelines: their descriptors, their assembly and their pool.
//!
//! A pipeline that the pool does not hold yet is assembled in steps. Its
//! source is resolved, from the generated sources if the descriptor names
//! one and from the catalogue otherwise. The source is compiled to a shader
//! module, with or without validation. The module is bound to the pipeline
//! layout under the entry point `main`. A step that fails ends the assembly
//! and leaves the pool as it was, so the same request fails the same way
//! when it is made again.

use crate::pool::unresolved;
use crate::pool::Descriptor;
use crate::pool::Handle;
use crate::pool::PoolError;
use crate::pool::PoolView;
use crate::pool::StaticResourcePool;
use crate::pool::StaticResourcePoolReadLockAccessor;
use crate::pools::KernelSourceHandle;
use crate::pools::KernelSourcePool;
use crate::pools::PipelineLayoutHandle;
use crate::pools::PipelineLayoutPool;
use crate::registry::KernelKey;
use crate::registry::KernelRegistry;
use crate::slots::SlotKey;
use crate::slots::SLOT_LIMIT;
use vstd::prelude::*;

verus! {

/// Handle of a compute pipeline.
#[derive(Clone, Copy, Debug, PartialEq, Eq, Hash, Structural)]
pub struct ComputePipelineHandle(pub SlotKey);

impl Handle for ComputePipelineHandle {
    open spec fn key(self) -> SlotKey {
        self.0
    }

    open spec fn of(key: SlotKey) -> Self {
        ComputePipelineHandle(key)
    }

    proof fn of_key(key: SlotKey) {
    }

    proof fn key_of(handle: Self) {
    }

    fn from_key(key: SlotKey) -> (handle: Self) {
        ComputePipelineHandle(key)
    }

    fn to_key(&self) -> (key: SlotKey) {
        self.0
    }
}

/// What a compute pipeline is built from.
#[derive(Clone, Debug, PartialEq, Eq, Hash)]
pub struct ComputePipelineDescriptor {
    /// The layout of the pipeline.
    pub pipeline_layout: PipelineLayoutHandle,
    /// The name of the kernel.
    pub kernel_key: KernelKey,
    /// The generated source of the kernel, if it is not one of the catalogue.
    pub compute_module: Option<KernelSourceHandle>,
}

/// A pipeline descriptor as a value.
pub struct ComputePipelineKey {
    pub pipeline_layout: PipelineLayoutHandle,
    pub kernel_key: Seq<char>,
    pub compute_module: Option<KernelSourceHandle>,
}

impl View for ComputePipelineDescriptor {
    type V = ComputePipelineKey;

    open spec fn view(&self) -> ComputePipelineKey {
        ComputePipelineKey {
            pipeline_layout: self.pipeline_layout,
            kernel_key: self.kernel_key@,
            compute_module: self.compute_module,
        }
    }
}

impl Descriptor for ComputePipelineDescriptor {
    fn same(&self, other: &Self) -> (r: bool) {
        let modules = match (self.compute_module, other.compute_module) {
            (Some(a), Some(b)) => a == b,
            (None, None) => true,
            _ => false,
        };
        modules && self.pipeline_layout == other.pipeline_layout && self.kernel_key.same(
            &other.kernel_key,
        )
    }

    fn duplicate(&self) -> (r: Self) {
        ComputePipelineDescriptor {
            pipeline_layout: self.pipeline_layout,
            kernel_key: self.kernel_key.duplicate(),
            compute_module: self.compute_module,
        }
    }
}

/// Whether a shader is validated when it is compiled.
#[derive(Clone, Copy, Debug, PartialEq, Eq, Hash, Structural)]
pub enum CompileMode {
    /// The shader is validated in full, and what is wrong with it is reported.
    Checked,
    /// The shader is taken as it is.
    Unchecked,
}

impl CompileMode {
    /// The mode that the configuration switch selects.
    pub fn from_flag(checked: bool) -> (mode: Self)
        ensures
            mode == (if checked {
                CompileMode::Checked
            } else {
                CompileMode::Unchecked
            }),
    {
        if checked {
            CompileMode::Checked
        } else {
            CompileMode::Unchecked
        }
    }
}

/// Why a pipeline was not built.
#[derive(Debug)]
pub enum PipelineError {
    /// The catalogue has no kernel of this name.
    KernelNotFound(String),
    /// The shader did not pass validation.
    ShaderValidation { source: String, message: String },
    /// A key in the descriptor did not resolve.
    Pool(PoolError),
}

/// A pipeline error as a value.
pub enum PipelineFailure {
    KernelNotFound(Seq<char>),
    ShaderValidation { source: Seq<char>, message: Seq<char> },
    Pool(PoolError),
}

impl View for PipelineError {
    type V = PipelineFailure;

    open spec fn view(&self) -> PipelineFailure {
        match self {
            PipelineError::KernelNotFound(name) => PipelineFailure::KernelNotFound(name@),
            PipelineError::ShaderValidation { source, message } => PipelineFailure::ShaderValidation {
                source: source@,
                message: message@,
            },
            PipelineError::Pool(e) => PipelineFailure::Pool(*e),
        }
    }
}

/// What is handed to the shader compiler.
#[derive(Debug)]
pub struct ShaderModuleRequest {
    /// The name under which the module shows up in diagnostics.
    pub label: String,
    /// The shader text.
    pub source: String,
    /// Whether the text is validated.
    pub mode: CompileMode,
}

/// What a pipeline is created with, besides its shader module.
#[derive(Debug)]
pub struct PipelineRequest {
    /// The name under which the pipeline shows up in diagnostics.
    pub label: String,
    /// The layout of the pipeline.
    pub layout: PipelineLayoutHandle,
    /// The function of the module at which an invocation starts.
    pub entry_point: String,
    /// Whether workgroup memory is zeroed before the kernel runs.
    pub zero_initialize_workgroup_memory: bool,
}

/// The entry point of every kernel.
pub const ENTRY_POINT: &'static str = "main";

/// The source of the kernel that `desc` describes: the generated source
/// that it names, or else the source that the catalogue has under its name.
pub open spec fn resolved_source(
    desc: ComputePipelineKey,
    registry: Map<Seq<char>, Seq<char>>,
    sources: PoolView<Seq<char>, String>,
) -> Result<Seq<char>, PipelineFailure> {
    match desc.compute_module {
        Some(handle) => if sources.resources.contains_key(handle.0) {
            Ok(sources.resources[handle.0]@)
        } else {
            Err(PipelineFailure::Pool(unresolved(handle.0)))
        },
        None => if registry.contains_key(desc.kernel_key) {
            Ok(registry[desc.kernel_key])
        } else {
            Err(PipelineFailure::KernelNotFound(desc.kernel_key))
        },
    }
}

/// Whether `request` asks the compiler for `text` under the name of the
/// kernel that `desc` describes, validated if `checked`.
pub open spec fn is_module_request(
    request: ShaderModuleRequest,
    desc: ComputePipelineKey,
    text: Seq<char>,
    checked: bool,
) -> bool {
    &&& request.label@ == desc.kernel_key
    &&& request.source@ == text
    &&& request.mode == (if checked {
        CompileMode::Checked
    } else {
        CompileMode::Unchecked
    })
}

/// Whether `request` asks for the pipeline that `desc` describes: under the
/// name of its kernel, with its layout, the entry point `main` and workgroup
/// memory that is not zeroed.
pub open spec fn is_pipeline_request(request: PipelineRequest, desc: ComputePipelineKey) -> bool {
    &&& request.label@ == desc.kernel_key
    &&& request.layout == desc.pipeline_layout
    &&& request.entry_point@ == ENTRY_POINT@
    &&& !request.zero_initialize_workgroup_memory
}

/// Resolves the source of the kernel that `desc` describes.
pub fn resolve_source(
    desc: &ComputePipelineDescriptor,
    registry: &KernelRegistry,
    sources: &KernelSourcePool,
) -> (r: Result<String, PipelineError>)
    requires
        registry.wf(),
        sources.wf(),
    ensures
        match resolved_source(desc@, registry@, sources@) {
            Ok(text) => r matches Ok(source) && source@ == text,
            Err(failure) => r matches Err(e) && e@ == failure,
        },
{
    match desc.compute_module {
        Some(handle) => match sources.get(handle) {
            Ok(source) => Ok(source.clone()),
            Err(e) => Err(PipelineError::Pool(e)),
        },
        None => match registry.get(desc.kernel_key.as_str()) {
            Some(source) => Ok(String::from_str(source)),
            None => Err(PipelineError::KernelNotFound(String::from_str(desc.kernel_key.as_str()))),
        },
    }
}

/// What the compiler is asked for the kernel that `desc` describes: its
/// source under its name, validated or not as the switch says.
pub fn module_request(
    desc: &ComputePipelineDescriptor,
    registry: &KernelRegistry,
    sources: &KernelSourcePool,
    checked: bool,
) -> (r: Result<ShaderModuleRequest, PipelineError>)
    requires
        registry.wf(),
        sources.wf(),
    ensures
        match resolved_source(desc@, registry@, sources@) {
            Ok(text) => r matches Ok(request) && is_module_request(request, desc@, text, checked),
            Err(failure) => r matches Err(e) && e@ == failure,
        },
{
    match resolve_source(desc, registry, sources) {
        Ok(source) => Ok(
            ShaderModuleRequest {
                label: String::from_str(desc.kernel_key.as_str()),
                source,
                mode: CompileMode::from_flag(checked),
            },
        ),
        Err(e) => Err(e),
    }
}

/// What came of compiling `request`: the module, or the validation error
/// with the source that did not pass.
pub fn module_compiled<M>(request: &ShaderModuleRequest, outcome: Result<M, String>) -> (r: Result<
    M,
    PipelineError,
>)
    ensures
        match outcome {
            Ok(module) => r == Ok::<M, PipelineError>(module),
            Err(message) => r matches Err(e) && e@ == (PipelineFailure::ShaderValidation {
                source: request.source@,
                message: message@,
            }),
        },
{
    match outcome {
        Ok(module) => Ok(module),
        Err(message) => Err(
            PipelineError::ShaderValidation { source: request.source.clone(), message },
        ),
    }
}

/// What the pipeline that `desc` describes is created with: its layout,
/// which the layout pool must hold, the entry point `main`, and workgroup
/// memory that is not zeroed.
pub fn pipeline_request<L>(desc: &ComputePipelineDescriptor, layouts: &PipelineLayoutPool<L>) -> (r:
    Result<PipelineRequest, PipelineError>)
    requires
        layouts.wf(),
    ensures
        layouts@.resources.contains_key(desc.pipeline_layout.0) ==> (r matches Ok(request)
            && is_pipeline_request(request, desc@)),
        !layouts@.resources.contains_key(desc.pipeline_layout.0) ==> (r matches Err(e) && e@
            == PipelineFailure::Pool(unresolved(desc.pipeline_layout.0))),
{
    match layouts.get(desc.pipeline_layout) {
        Ok(_) => Ok(
            PipelineRequest {
                label: String::from_str(desc.kernel_key.as_str()),
                layout: desc.pipeline_layout,
                entry_point: String::from_str(ENTRY_POINT),
                zero_initialize_workgroup_memory: false,
            },
        ),
        Err(e) => Err(PipelineError::Pool(e)),
    }
}


/// What the assembly of a pipeline resolves its descriptor against.
pub struct PipelineContext<'a, L> {
    /// The catalogue of kernels that are known by name.
    pub registry: &'a KernelRegistry,
    /// The kernel sources that were generated.
    pub sources: &'a KernelSourcePool,
    /// The pipeline layouts.
    pub layouts: &'a PipelineLayoutPool<L>,
    /// Whether shaders are validated when they are compiled.
    pub checked: bool,
}

impl<'a, L> PipelineContext<'a, L> {
    /// The catalogue and the pools are intact.
    pub open spec fn wf(&self) -> bool {
        &&& self.registry.wf()
        &&& self.sources.wf()
        &&& self.layouts.wf()
    }
}

/// The compute pipelines of a device, by their descriptor.
pub struct ComputePipelinePool<R> {
    inner: StaticResourcePool<ComputePipelineHandle, ComputePipelineDescriptor, R>,
}

impl<R> View for ComputePipelinePool<R> {
    type V = PoolView<ComputePipelineKey, R>;

    closed spec fn view(&self) -> PoolView<ComputePipelineKey, R> {
        self.inner@
    }
}

impl<R> ComputePipelinePool<R> {
    /// The pool is intact.
    pub closed spec fn wf(&self) -> bool {
        self.inner.wf()
    }

    /// The number of pipelines.
    pub closed spec fn spec_len(&self) -> nat {
        self.inner.spec_len()
    }

    /// An intact pool has a well-formed view.
    pub proof fn view_wf(&self)
        requires
            self.wf(),
        ensures
            self@.wf(),
    {
        self.inner.view_wf();
    }

    /// A pool without pipelines.
    pub fn new() -> (pool: Self)
        ensures
            pool.wf(),
            pool@ == PoolView::<ComputePipelineKey, R>::empty(),
            pool.spec_len() == 0,
    {
        ComputePipelinePool { inner: StaticResourcePool::new() }
    }

    /// The number of pipelines.
    pub fn len(&self) -> (n: usize)
        requires
            self.wf(),
        ensures
            n == self.spec_len(),
    {
        self.inner.len()
    }

    /// The key of the pipeline that `desc` describes, if the pool holds it.
    pub fn find(&self, desc: &ComputePipelineDescriptor) -> (r: Option<ComputePipelineHandle>)
        requires
            self.wf(),
        ensures
            r == (if self@.handles.contains_key(desc@) {
                Some(ComputePipelineHandle(self@.handles[desc@]))
            } else {
                None
            }),
    {
        self.inner.find(desc)
    }

    /// Takes in the pipeline that was created for `desc`, which the pool
    /// must not hold yet.
    pub fn insert(&mut self, desc: &ComputePipelineDescriptor, pipeline: R) -> (handle:
        ComputePipelineHandle)
        requires
            old(self).wf(),
            old(self).spec_len() < SLOT_LIMIT,
            !old(self)@.handles.contains_key(desc@),
        ensures
            final(self).wf(),
            final(self).spec_len() == old(self).spec_len() + 1,
            !old(self)@.resources.contains_key(handle.0),
            !handle.0.null(),
            final(self)@ == old(self)@.with(desc@, handle.0, pipeline),
    {
        self.inner.insert(desc, pipeline)
    }

    /// Whether a pool that was `before` and did not hold the pipeline that
    /// `desc` describes is `after` and answers `r`, once the compiler gave
    /// `compiled` for the source `text`. A validation error is the answer,
    /// with the source. With a module, a layout that the layout pool does
    /// not hold is the answer. Otherwise `create` made the pipeline from the
    /// module, and it is held under a new key, whose handle is the answer.
    /// Nothing is held after an error.
    pub open spec fn assembled<M, P: FnOnce(&PipelineRequest, M) -> R>(
        before: PoolView<ComputePipelineKey, R>,
        desc: ComputePipelineKey,
        text: Seq<char>,
        compiled: Result<M, String>,
        layout_known: bool,
        create: P,
        after: PoolView<ComputePipelineKey, R>,
        r: Result<ComputePipelineHandle, PipelineError>,
    ) -> bool {
        match compiled {
            Err(message) => r matches Err(e) && e@ == (PipelineFailure::ShaderValidation {
                source: text,
                message: message@,
            }) && after == before,
            Ok(module) => if layout_known {
                r matches Ok(handle) && !before.resources.contains_key(handle.0)
                    && after.resources.contains_key(handle.0) && after == before.with(
                    desc,
                    handle.0,
                    after.resources[handle.0],
                ) && exists|request: PipelineRequest| #[trigger]
                    create.ensures((&request, module), after.resources[handle.0])
                        && is_pipeline_request(request, desc)
            } else {
                r matches Err(e) && e@ == PipelineFailure::Pool(unresolved(desc.pipeline_layout.0))
                    && after == before
            },
        }
    }

    /// The handle of the pipeline that `desc` describes. A pipeline that the
    /// pool holds is not built again. One that it does not hold is assembled:
    /// `compile` turns the resolved source into a shader module, `create`
    /// makes the pipeline from the module, and the pipeline is taken in under
    /// a new key. Where the source or the layout does not resolve, or
    /// `compile` reports an error, the pool stays as it was.
    pub fn get_or_create<L, M, C, P>(
        &mut self,
        desc: &ComputePipelineDescriptor,
        context: &PipelineContext<'_, L>,
        compile: C,
        create: P,
    ) -> (r: Result<ComputePipelineHandle, PipelineError>) where
        C: FnOnce(&ShaderModuleRequest) -> Result<M, String>,
        P: FnOnce(&PipelineRequest, M) -> R,

        requires
            old(self).wf(),
            old(self).spec_len() < SLOT_LIMIT,
            context.wf(),
            forall|request: &ShaderModuleRequest| #[trigger] compile.requires((request,)),
            forall|request: &PipelineRequest, module: M| #[trigger]
                create.requires((request, module)),
        ensures
            final(self).wf(),
            old(self)@.handles.contains_key(desc@) ==> r == Ok::<
                ComputePipelineHandle,
                PipelineError,
            >(ComputePipelineHandle(old(self)@.handles[desc@])) && final(self)@ == old(self)@,
            !old(self)@.handles.contains_key(desc@) ==> (match resolved_source(
                desc@,
                context.registry@,
                context.sources@,
            ) {
                Err(failure) => r matches Err(e) && e@ == failure && final(self)@ == old(self)@,
                Ok(text) => exists|request: ShaderModuleRequest, compiled: Result<M, String>|
                    #![trigger compile.ensures((&request,), compiled)]
                    is_module_request(request, desc@, text, context.checked) && compile.ensures(
                        (&request,),
                        compiled,
                    ) && Self::assembled(
                        old(self)@,
                        desc@,
                        text,
                        compiled,
                        context.layouts@.resources.contains_key(desc.pipeline_layout.0),
                        create,
                        final(self)@,
                        r,
                    ),
            }),
            final(self).spec_len() == old(self).spec_len() + (if r is Ok && !old(
                self,
            )@.handles.contains_key(desc@) {
                1nat
            } else {
                0nat
            }),
    {
        match self.find(desc) {
            Some(handle) => {
                return Ok(handle);
            },
            None => {},
        }
        let request = match module_request(desc, context.registry, context.sources, context.checked) {
            Ok(request) => request,
            Err(e) => {
                return Err(e);
            },
        };
        let ghost text = request.source@;
        let ghost layout_known = context.layouts@.resources.contains_key(desc.pipeline_layout.0);
        let compiled = compile(&request);
        let module = match module_compiled(&request, compiled) {
            Ok(module) => module,
            Err(e) => {
                proof {
                    assert(compile.ensures((&request,), compiled) && Self::assembled(
                        old(self)@,
                        desc@,
                        text,
                        compiled,
                        layout_known,
                        create,
                        self@,
                        Err::<ComputePipelineHandle, PipelineError>(e),
                    ));
                }
                return Err(e);
            },
        };
        let pipeline_request = match pipeline_request(desc, context.layouts) {
            Ok(pipeline_request) => pipeline_request,
            Err(e) => {
                proof {
                    assert(compile.ensures((&request,), compiled) && Self::assembled(
                        old(self)@,
                        desc@,
                        text,
                        compiled,
                        layout_known,
                        create,
                        self@,
                        Err::<ComputePipelineHandle, PipelineError>(e),
                    ));
                }
                return Err(e);
            },
        };
        let pipeline = create(&pipeline_request, module);
        let handle = self.insert(desc, pipeline);
        proof {
            assert(create.ensures((&pipeline_request, module), self@.resources[handle.0])
                && is_pipeline_request(pipeline_request, desc@));
            assert(compile.ensures((&request,), compiled) && Self::assembled(
                old(self)@,
                desc@,
                text,
                compiled,
                layout_known,
                create,
                self@,
                Ok::<ComputePipelineHandle, PipelineError>(handle),
            ));
        }
        Ok(handle)
    }

    /// Whether `handle` is a handle of this pool.
    pub fn contains(&self, handle: ComputePipelineHandle) -> (r: bool)
        requires
            self.wf(),
        ensures
            r == self@.resources.contains_key(handle.0),
    {
        self.inner.contains(handle)
    }

    /// The pipeline behind `handle`.
    pub fn get(&self, handle: ComputePipelineHandle) -> (r: Result<&R, PoolError>)
        requires
            self.wf(),
        ensures
            r == self@.resolve(handle.0),
    {
        self.inner.get(handle)
    }

    /// Holds the pool for resolving keys. While it is held, no pipeline can
    /// be added.
    pub fn resources(&self) -> (accessor: StaticResourcePoolReadLockAccessor<
        '_,
        ComputePipelineHandle,
        ComputePipelineDescriptor,
        R,
    >)
        ensures
            accessor.pool()@ == self@,
            accessor.pool().wf() == self.wf(),
    {
        self.inner.resources()
    }
}

} // verus!
