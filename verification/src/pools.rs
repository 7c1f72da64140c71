//! The pools of a compute device, one for each kind of resource.
//!
//! A resource that is built from others is requested after them: a bind
//! group after its layout and its buffers, a pipeline layout after its
//! bind-group layouts, a pipeline after its layout and its generated source.

use crate::gemv::gemv_render;
use crate::gemv::OperationError;
use crate::gemv::GEMV;
use crate::kernel::WgslKernel;
use crate::kernel::WorkgroupSize;
use crate::layout::BindGroupLayoutDescriptor;
use crate::pool::Descriptor;
use crate::pool::Handle;
use crate::pool::PoolError;
use crate::pool::PoolView;
use crate::pool::StaticResourcePool;
use crate::pool::StaticResourcePoolReadLockAccessor;
use crate::registry::KernelKey;
use crate::slots::SlotKey;
use crate::slots::SLOT_LIMIT;
use crate::tensor::Tensor;
use vstd::prelude::*;

verus! {

/// Handle of a buffer.
#[derive(Clone, Copy, Debug, PartialEq, Eq, Hash, Structural)]
pub struct BufferHandle(pub SlotKey);

/// Handle of a bind-group layout.
#[derive(Clone, Copy, Debug, PartialEq, Eq, Hash, Structural)]
pub struct BindGroupLayoutHandle(pub SlotKey);

/// Handle of a bind group.
#[derive(Clone, Copy, Debug, PartialEq, Eq, Hash, Structural)]
pub struct BindGroupHandle(pub SlotKey);

/// Handle of a pipeline layout.
#[derive(Clone, Copy, Debug, PartialEq, Eq, Hash, Structural)]
pub struct PipelineLayoutHandle(pub SlotKey);

/// Handle of a generated kernel source.
#[derive(Clone, Copy, Debug, PartialEq, Eq, Hash, Structural)]
pub struct KernelSourceHandle(pub SlotKey);

impl Handle for BufferHandle {
    open spec fn key(self) -> SlotKey {
        self.0
    }

    open spec fn of(key: SlotKey) -> Self {
        BufferHandle(key)
    }

    proof fn of_key(key: SlotKey) {
    }

    proof fn key_of(handle: Self) {
    }

    fn from_key(key: SlotKey) -> (handle: Self) {
        BufferHandle(key)
    }

    fn to_key(&self) -> (key: SlotKey) {
        self.0
    }
}

impl Handle for BindGroupLayoutHandle {
    open spec fn key(self) -> SlotKey {
        self.0
    }

    open spec fn of(key: SlotKey) -> Self {
        BindGroupLayoutHandle(key)
    }

    proof fn of_key(key: SlotKey) {
    }

    proof fn key_of(handle: Self) {
    }

    fn from_key(key: SlotKey) -> (handle: Self) {
        BindGroupLayoutHandle(key)
    }

    fn to_key(&self) -> (key: SlotKey) {
        self.0
    }
}

impl Handle for BindGroupHandle {
    open spec fn key(self) -> SlotKey {
        self.0
    }

    open spec fn of(key: SlotKey) -> Self {
        BindGroupHandle(key)
    }

    proof fn of_key(key: SlotKey) {
    }

    proof fn key_of(handle: Self) {
    }

    fn from_key(key: SlotKey) -> (handle: Self) {
        BindGroupHandle(key)
    }

    fn to_key(&self) -> (key: SlotKey) {
        self.0
    }
}

impl Handle for PipelineLayoutHandle {
    open spec fn key(self) -> SlotKey {
        self.0
    }

    open spec fn of(key: SlotKey) -> Self {
        PipelineLayoutHandle(key)
    }

    proof fn of_key(key: SlotKey) {
    }

    proof fn key_of(handle: Self) {
    }

    fn from_key(key: SlotKey) -> (handle: Self) {
        PipelineLayoutHandle(key)
    }

    fn to_key(&self) -> (key: SlotKey) {
        self.0
    }
}

impl Handle for KernelSourceHandle {
    open spec fn key(self) -> SlotKey {
        self.0
    }

    open spec fn of(key: SlotKey) -> Self {
        KernelSourceHandle(key)
    }

    proof fn of_key(key: SlotKey) {
    }

    proof fn key_of(handle: Self) {
    }

    fn from_key(key: SlotKey) -> (handle: Self) {
        KernelSourceHandle(key)
    }

    fn to_key(&self) -> (key: SlotKey) {
        self.0
    }
}

/// What a buffer is allocated with.
#[derive(Clone, Copy, Debug, PartialEq, Eq, Hash, Structural)]
pub struct BufferDescriptor {
    /// The size in bytes.
    pub size: u64,
    /// The uses the buffer is allowed, as a set of bits.
    pub usage: u32,
    /// Whether the buffer is mapped when it is created.
    pub mapped_at_creation: bool,
}

impl View for BufferDescriptor {
    type V = BufferDescriptor;

    open spec fn view(&self) -> BufferDescriptor {
        *self
    }
}

impl Descriptor for BufferDescriptor {
    fn same(&self, other: &Self) -> (r: bool) {
        self.size == other.size && self.usage == other.usage && self.mapped_at_creation
            == other.mapped_at_creation
    }

    fn duplicate(&self) -> (r: Self) {
        *self
    }
}

/// One buffer of a bind group: which bytes of which buffer.
#[derive(Clone, Copy, Debug, PartialEq, Eq, Hash, Structural)]
pub struct BindGroupEntry {
    /// The buffer.
    pub handle: BufferHandle,
    /// Where the bound range starts, in bytes.
    pub offset: u64,
    /// The length of the bound range in bytes, or the rest of the buffer.
    pub size: Option<u64>,
}

/// What a bind group is made of: its buffers in the order of their slots,
/// and the layout that they fill.
#[derive(Clone, Debug, PartialEq, Eq, Hash)]
pub struct BindGroupDescriptor {
    pub entries: Vec<BindGroupEntry>,
    pub layout: BindGroupLayoutHandle,
}

impl View for BindGroupDescriptor {
    type V = (Seq<BindGroupEntry>, BindGroupLayoutHandle);

    open spec fn view(&self) -> (Seq<BindGroupEntry>, BindGroupLayoutHandle) {
        (self.entries@, self.layout)
    }
}

impl Descriptor for BindGroupDescriptor {
    fn same(&self, other: &Self) -> (r: bool) {
        if self.layout != other.layout || self.entries.len() != other.entries.len() {
            return false;
        }
        let mut i: usize = 0;
        while i < self.entries.len()
            invariant
                self.entries.len() == other.entries.len(),
                0 <= i <= self.entries.len(),
                forall|j: int| 0 <= j < i ==> self.entries@[j] == other.entries@[j],
            decreases self.entries.len() - i,
        {
            if self.entries[i] != other.entries[i] {
                return false;
            }
            i += 1;
        }
        assert(self.entries@ =~= other.entries@);
        true
    }

    fn duplicate(&self) -> (r: Self) {
        let mut entries: Vec<BindGroupEntry> = Vec::new();
        let mut i: usize = 0;
        while i < self.entries.len()
            invariant
                0 <= i <= self.entries.len(),
                entries@.len() == i,
                forall|j: int| 0 <= j < i ==> entries@[j] == self.entries@[j],
            decreases self.entries.len() - i,
        {
            entries.push(self.entries[i]);
            i += 1;
        }
        assert(entries@ =~= self.entries@);
        BindGroupDescriptor { entries, layout: self.layout }
    }
}

/// The bind-group layouts of a pipeline, in the order of their groups.
#[derive(Clone, Debug, PartialEq, Eq, Hash)]
pub struct PipelineLayoutDescriptor {
    pub entries: Vec<BindGroupLayoutHandle>,
}

impl View for PipelineLayoutDescriptor {
    type V = Seq<BindGroupLayoutHandle>;

    open spec fn view(&self) -> Seq<BindGroupLayoutHandle> {
        self.entries@
    }
}

impl Descriptor for PipelineLayoutDescriptor {
    fn same(&self, other: &Self) -> (r: bool) {
        if self.entries.len() != other.entries.len() {
            return false;
        }
        let mut i: usize = 0;
        while i < self.entries.len()
            invariant
                self.entries.len() == other.entries.len(),
                0 <= i <= self.entries.len(),
                forall|j: int| 0 <= j < i ==> self.entries@[j] == other.entries@[j],
            decreases self.entries.len() - i,
        {
            if self.entries[i] != other.entries[i] {
                return false;
            }
            i += 1;
        }
        assert(self@ =~= other@);
        true
    }

    fn duplicate(&self) -> (r: Self) {
        let mut entries: Vec<BindGroupLayoutHandle> = Vec::new();
        let mut i: usize = 0;
        while i < self.entries.len()
            invariant
                0 <= i <= self.entries.len(),
                entries@.len() == i,
                forall|j: int| 0 <= j < i ==> entries@[j] == self.entries@[j],
            decreases self.entries.len() - i,
        {
            entries.push(self.entries[i]);
            i += 1;
        }
        assert(entries@ =~= self.entries@);
        PipelineLayoutDescriptor { entries }
    }
}

/// The buffers of a device, by what they were allocated with.
pub type BufferPool<R> = StaticResourcePool<BufferHandle, BufferDescriptor, R>;

/// The bind-group layouts of a device, by their shape.
pub type BindGroupLayoutPool<R> = StaticResourcePool<
    BindGroupLayoutHandle,
    BindGroupLayoutDescriptor,
    R,
>;

/// The bind groups of a device, by their buffers and layout.
pub type BindGroupPool<R> = StaticResourcePool<BindGroupHandle, BindGroupDescriptor, R>;

/// The pipeline layouts of a device, by the bind-group layouts they join.
pub type PipelineLayoutPool<R> = StaticResourcePool<
    PipelineLayoutHandle,
    PipelineLayoutDescriptor,
    R,
>;

/// The kernel sources that were generated on this device, by their key.
pub struct KernelSourcePool {
    inner: StaticResourcePool<KernelSourceHandle, KernelKey, String>,
}

impl View for KernelSourcePool {
    type V = PoolView<Seq<char>, String>;

    closed spec fn view(&self) -> PoolView<Seq<char>, String> {
        self.inner@
    }
}

impl KernelSourcePool {
    /// The pool is intact.
    pub closed spec fn wf(&self) -> bool {
        self.inner.wf()
    }

    /// The number of sources.
    pub closed spec fn spec_len(&self) -> nat {
        self.inner.spec_len()
    }

    /// An intact pool has a well-formed view.
    pub proof fn view_wf(&self)
        requires
            self.wf(),
        ensures
            self@.wf(),
    {
        self.inner.view_wf();
    }

    /// A pool without sources.
    pub fn new() -> (pool: Self)
        ensures
            pool.wf(),
            pool@ == PoolView::<Seq<char>, String>::empty(),
            pool.spec_len() == 0,
    {
        KernelSourcePool { inner: StaticResourcePool::new() }
    }

    /// The number of sources.
    pub fn len(&self) -> (n: usize)
        requires
            self.wf(),
        ensures
            n == self.spec_len(),
    {
        self.inner.len()
    }

    /// The handle of the source that is kept under `key`. If there is none
    /// yet, the kernel of `kernel` is rendered and kept; if it cannot be
    /// rendered, the pool stays as it was and the error is handed on.
    pub fn get_or_create(
        &mut self,
        key: &KernelKey,
        kernel: &GEMV,
        inplace: bool,
        dst: &Tensor,
        workgroup_size: WorkgroupSize,
    ) -> (r: Result<KernelSourceHandle, OperationError>)
        requires
            old(self).wf(),
            old(self).spec_len() < SLOT_LIMIT,
        ensures
            final(self).wf(),
            old(self)@.handles.contains_key(key@) ==> r == Ok::<
                KernelSourceHandle,
                OperationError,
            >(KernelSourceHandle(old(self)@.handles[key@])) && final(self)@ == old(self)@
                && final(self).spec_len() == old(self).spec_len(),
            !old(self)@.handles.contains_key(key@) ==> (match gemv_render(
                kernel.lhs().spec_device(),
                kernel.lhs().spec_dt(),
                kernel.rhs().spec_dt(),
                kernel.bias() is Some,
                workgroup_size,
            ) {
                Ok(text) => r matches Ok(handle) && !old(self)@.resources.contains_key(handle.0)
                    && final(self)@.resources.contains_key(handle.0)
                    && final(self)@.resources[handle.0]@ == text && final(self)@ == old(
                    self,
                )@.with(key@, handle.0, final(self)@.resources[handle.0])
                    && final(self).spec_len() == old(self).spec_len() + 1,
                Err(e) => r == Err::<KernelSourceHandle, OperationError>(e) && final(self)@
                    == old(self)@ && final(self).spec_len() == old(self).spec_len(),
            }),
    {
        match self.inner.find(key) {
            Some(found) => Ok(found),
            None => {
                let outcome = kernel.render(inplace, dst, workgroup_size);
                self.keep(key, outcome)
            },
        }
    }

    /// The handle of the source that is kept under `key`. If there is none
    /// yet, `render` is called for the kernel, which is kept; if it fails,
    /// the pool stays as it was and the error is handed on. With a source
    /// under `key`, `render` is not called.
    pub fn get_or_render<F: FnOnce() -> Result<WgslKernel, OperationError>>(
        &mut self,
        key: &KernelKey,
        render: F,
    ) -> (r: Result<KernelSourceHandle, OperationError>)
        requires
            old(self).wf(),
            old(self).spec_len() < SLOT_LIMIT,
            render.requires(()),
        ensures
            final(self).wf(),
            old(self)@.handles.contains_key(key@) ==> r == Ok::<
                KernelSourceHandle,
                OperationError,
            >(KernelSourceHandle(old(self)@.handles[key@])) && final(self)@ == old(self)@
                && final(self).spec_len() == old(self).spec_len(),
            !old(self)@.handles.contains_key(key@) ==> exists|outcome: Result<
                WgslKernel,
                OperationError,
            >| #[trigger]
                render.ensures((), outcome) && Self::kept(
                    old(self)@,
                    key@,
                    outcome,
                    final(self)@,
                    r,
                ),
            r is Err ==> final(self)@ == old(self)@ && final(self).spec_len() == old(
                self,
            ).spec_len(),
    {
        match self.inner.find(key) {
            Some(found) => Ok(found),
            None => {
                let outcome = render();
                self.keep(key, outcome)
            },
        }
    }

    /// Whether a pool that was `before` and had no source under `key` is
    /// `after` and answers `r`, once rendering came out as `outcome`: the
    /// text of a kernel is kept under a new key, whose handle is the answer;
    /// an error is the answer, and nothing is kept.
    pub open spec fn kept(
        before: PoolView<Seq<char>, String>,
        key: Seq<char>,
        outcome: Result<WgslKernel, OperationError>,
        after: PoolView<Seq<char>, String>,
        r: Result<KernelSourceHandle, OperationError>,
    ) -> bool {
        match outcome {
            Ok(kernel) => r matches Ok(handle) && !before.resources.contains_key(handle.0)
                && after.resources.contains_key(handle.0) && after.resources[handle.0]@
                == kernel@ && after == before.with(key, handle.0, after.resources[handle.0]),
            Err(e) => r == Err::<KernelSourceHandle, OperationError>(e) && after == before,
        }
    }

    /// Keeps what rendering gave for `key`, under which the pool has no
    /// source yet.
    pub fn keep(&mut self, key: &KernelKey, outcome: Result<WgslKernel, OperationError>) -> (r:
        Result<KernelSourceHandle, OperationError>)
        requires
            old(self).wf(),
            old(self).spec_len() < SLOT_LIMIT,
            !old(self)@.handles.contains_key(key@),
        ensures
            final(self).wf(),
            Self::kept(old(self)@, key@, outcome, final(self)@, r),
            final(self).spec_len() == old(self).spec_len() + (if outcome is Ok {
                1nat
            } else {
                0nat
            }),
    {
        match outcome {
            Ok(kernel) => {
                let source = kernel.to_string();
                Ok(self.inner.insert(key, source))
            },
            Err(e) => Err(e),
        }
    }

    /// Whether `handle` is a handle of this pool.
    pub fn contains(&self, handle: KernelSourceHandle) -> (r: bool)
        requires
            self.wf(),
        ensures
            r == self@.resources.contains_key(handle.0),
    {
        self.inner.contains(handle)
    }

    /// The source behind `handle`.
    pub fn get(&self, handle: KernelSourceHandle) -> (r: Result<&String, PoolError>)
        requires
            self.wf(),
        ensures
            r == self@.resolve(handle.0),
    {
        self.inner.get(handle)
    }

    /// Holds the pool for resolving handles.
    pub fn resources(&self) -> (accessor: StaticResourcePoolReadLockAccessor<
        '_,
        KernelSourceHandle,
        KernelKey,
        String,
    >)
        ensures
            accessor.pool()@ == self@,
            accessor.pool().wf() == self.wf(),
    {
        self.inner.resources()
    }
}

} // verus!
