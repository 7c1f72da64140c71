//! Bind-group layouts: which storage buffers a kernel is bound to.

use crate::pool::Descriptor;
use vstd::prelude::*;

verus! {

/// One storage buffer slot of a bind group.
#[derive(Clone, Copy, Debug, PartialEq, Eq, Hash, Structural)]
pub struct BindGroupLayoutEntry {
    /// The slot number.
    pub binding: u32,
    /// Whether the kernel only reads the buffer.
    pub read_only: bool,
}

impl BindGroupLayoutEntry {
    /// The storage buffer in slot `binding` of a compute kernel.
    pub fn compute_storage_buffer(binding: u32, read_only: bool) -> (entry: Self)
        ensures
            entry == (BindGroupLayoutEntry { binding, read_only }),
    {
        BindGroupLayoutEntry { binding, read_only }
    }
}

/// The slots of a kernel with `inputs` operands: one read-only buffer for
/// each operand, in order, and after them the buffer that is written.
pub open spec fn storage_entries(inputs: nat) -> Seq<BindGroupLayoutEntry> {
    Seq::new(
        inputs + 1,
        |i: int| BindGroupLayoutEntry { binding: i as u32, read_only: i < inputs },
    )
}

/// The shape of a bind group: its buffer slots in order.
#[derive(Clone, Debug, PartialEq, Eq, Hash)]
pub struct BindGroupLayoutDescriptor {
    pub entries: Vec<BindGroupLayoutEntry>,
}

impl View for BindGroupLayoutDescriptor {
    type V = Seq<BindGroupLayoutEntry>;

    open spec fn view(&self) -> Seq<BindGroupLayoutEntry> {
        self.entries@
    }
}

impl BindGroupLayoutDescriptor {
    /// The layout of a kernel with `ro` operands.
    pub fn nthary(ro: usize) -> (layout: Self)
        requires
            ro < u32::MAX,
        ensures
            layout@ == storage_entries(ro as nat),
    {
        let mut entries: Vec<BindGroupLayoutEntry> = Vec::new();
        let mut i: usize = 0;
        while i < ro
            invariant
                ro < u32::MAX,
                0 <= i <= ro,
                entries@.len() == i,
                forall|j: int|
                    0 <= j < i ==> #[trigger] entries@[j] == (BindGroupLayoutEntry {
                        binding: j as u32,
                        read_only: true,
                    }),
            decreases ro - i,
        {
            entries.push(BindGroupLayoutEntry::compute_storage_buffer(i as u32, true));
            i += 1;
        }
        entries.push(BindGroupLayoutEntry::compute_storage_buffer(ro as u32, false));
        assert(entries@ =~= storage_entries(ro as nat));
        BindGroupLayoutDescriptor { entries }
    }

    /// The layout of a kernel with one operand.
    pub fn unary() -> (layout: Self)
        ensures
            layout@ == storage_entries(1),
    {
        Self::nthary(1)
    }

    /// The layout of a kernel with two operands.
    pub fn binary() -> (layout: Self)
        ensures
            layout@ == storage_entries(2),
    {
        Self::nthary(2)
    }

    /// The layout of a kernel with three operands.
    pub fn ternary() -> (layout: Self)
        ensures
            layout@ == storage_entries(3),
    {
        Self::nthary(3)
    }
}

impl Descriptor for BindGroupLayoutDescriptor {
    fn same(&self, other: &Self) -> (r: bool) {
        if self.entries.len() != other.entries.len() {
            return false;
        }
        let mut i: usize = 0;
        while i < self.entries.len()
            invariant
                self.entries.len() == other.entries.len(),
                0 <= i <= self.entries.len(),
                forall|j: int| 0 <= j < i ==> self.entries@[j] == other.entries@[j],
            decreases self.entries.len() - i,
        {
            if self.entries[i] != other.entries[i] {
                return false;
            }
            i += 1;
        }
        assert(self@ =~= other@);
        true
    }

    fn duplicate(&self) -> (r: Self) {
        let mut entries: Vec<BindGroupLayoutEntry> = Vec::new();
        let mut i: usize = 0;
        while i < self.entries.len()
            invariant
                0 <= i <= self.entries.len(),
                entries@.len() == i,
                forall|j: int| 0 <= j < i ==> entries@[j] == self.entries@[j],
            decreases self.entries.len() - i,
        {
            entries.push(self.entries[i]);
            i += 1;
        }
        assert(entries@ =~= self.entries@);
        BindGroupLayoutDescriptor { entries }
    }
}

} // verus!
