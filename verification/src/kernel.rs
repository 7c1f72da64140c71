//! Shader text assembly.
//!
//! A kernel is put together from fragments of three kinds. Binding
//! declarations come first in the rendered text, the metadata block after
//! them, and the statements last, inside the entry point; within a kind the
//! fragments keep the order in which they were written.

use crate::device::DeviceFeatures;
use crate::layout::BindGroupLayoutDescriptor;
use crate::layout::BindGroupLayoutEntry;
use crate::text::decimal;
use crate::text::write_decimal;
use vstd::prelude::*;

verus! {

/// The extent of a workgroup along each axis.
#[derive(Clone, Copy, Debug, PartialEq, Eq, Hash, Structural)]
pub struct WorkgroupSize {
    pub x: u32,
    pub y: u32,
    pub z: u32,
}

pub const ENABLE_F16: &'static str = "enable f16;\n";

pub const WORKGROUP_OPEN: &'static str = "@compute @workgroup_size(";

pub const COMMA: &'static str = ", ";

pub const WORKGROUP_CLOSE: &'static str = ")\n";

pub const MAIN_OPEN: &'static str = "fn main(\n";

pub const MAIN_BODY: &'static str = ") {\n";

pub const MAIN_CLOSE: &'static str = "}\n";

pub const BUILTIN_LOCAL_INVOCATION_ID: &'static str =
    "    @builtin(local_invocation_id) local_invocation_id: vec3<u32>,\n";

pub const BUILTIN_GLOBAL_INVOCATION_ID: &'static str =
    "    @builtin(global_invocation_id) global_invocation_id: vec3<u32>,\n";

pub const BUILTIN_WORKGROUP_ID: &'static str =
    "    @builtin(workgroup_id) workgroup_id: vec3<u32>,\n";

pub const BUILTIN_NUM_WORKGROUPS: &'static str =
    "    @builtin(num_workgroups) num_workgroups: vec3<u32>,\n";

pub const BUILTIN_LOCAL_INVOCATION_INDEX: &'static str =
    "    @builtin(local_invocation_index) local_invocation_index: u32,\n";

pub const BINDING_GROUP: &'static str = "@group(0) @binding(";

pub const BINDING_READ: &'static str = ") var<storage, read> ";

pub const BINDING_READ_WRITE: &'static str = ") var<storage, read_write> ";

pub const METADATA_BINDING: &'static str = "@group(1) @binding(0) var<uniform> metadata: Meta;\n";

impl WorkgroupSize {
    /// The workgroup of the given extents.
    pub fn new(x: u32, y: u32, z: u32) -> (size: Self)
        ensures
            size == (WorkgroupSize { x, y, z }),
    {
        WorkgroupSize { x, y, z }
    }

    /// The attribute line that gives the entry point this workgroup size.
    pub open spec fn attribute(self) -> Seq<char> {
        WORKGROUP_OPEN@ + decimal(self.x as nat) + COMMA@ + decimal(self.y as nat) + COMMA@
            + decimal(self.z as nat) + WORKGROUP_CLOSE@
    }

    /// Appends the attribute line to `out`.
    pub fn write_attribute(&self, out: &mut String)
        ensures
            final(out)@ == old(out)@ + self.attribute(),
    {
        out.append(WORKGROUP_OPEN);
        write_decimal(out, self.x as u64);
        out.append(COMMA);
        write_decimal(out, self.y as u64);
        out.append(COMMA);
        write_decimal(out, self.z as u64);
        out.append(WORKGROUP_CLOSE);
        assert(out@ =~= old(out)@ + self.attribute());
    }
}

/// A value that the GPU hands to each invocation.
#[derive(Clone, Copy, Debug, PartialEq, Eq, Hash, Structural)]
pub enum BuiltIn {
    LocalInvocationId,
    GlobalInvocationId,
    WorkgroupId,
    NumWorkgroups,
    LocalInvocationIndex,
}

impl BuiltIn {
    /// The parameter line of the entry point that receives the value.
    pub open spec fn parameter(self) -> Seq<char> {
        match self {
            BuiltIn::LocalInvocationId => BUILTIN_LOCAL_INVOCATION_ID@,
            BuiltIn::GlobalInvocationId => BUILTIN_GLOBAL_INVOCATION_ID@,
            BuiltIn::WorkgroupId => BUILTIN_WORKGROUP_ID@,
            BuiltIn::NumWorkgroups => BUILTIN_NUM_WORKGROUPS@,
            BuiltIn::LocalInvocationIndex => BUILTIN_LOCAL_INVOCATION_INDEX@,
        }
    }

    /// The parameter line of the entry point that receives the value.
    pub fn render(&self) -> (line: &'static str)
        ensures
            line@ == self.parameter(),
    {
        match self {
            BuiltIn::LocalInvocationId => BUILTIN_LOCAL_INVOCATION_ID,
            BuiltIn::GlobalInvocationId => BUILTIN_GLOBAL_INVOCATION_ID,
            BuiltIn::WorkgroupId => BUILTIN_WORKGROUP_ID,
            BuiltIn::NumWorkgroups => BUILTIN_NUM_WORKGROUPS,
            BuiltIn::LocalInvocationIndex => BUILTIN_LOCAL_INVOCATION_INDEX,
        }
    }
}

/// The parameter lines of the given built-ins, in order.
pub open spec fn parameters(builtins: Seq<BuiltIn>) -> Seq<char>
    decreases builtins.len(),
{
    if builtins.len() == 0 {
        Seq::empty()
    } else {
        parameters(builtins.drop_last()) + builtins.last().parameter()
    }
}

/// A piece of shader text.
#[derive(Debug)]
pub struct WgslFragment {
    text: String,
}

impl View for WgslFragment {
    type V = Seq<char>;

    closed spec fn view(&self) -> Seq<char> {
        self.text@
    }
}

impl WgslFragment {
    /// The empty fragment.
    pub fn new() -> (fragment: Self)
        ensures
            fragment@ == Seq::<char>::empty(),
    {
        WgslFragment { text: String::new() }
    }

    /// The fragment that holds `text`.
    pub fn of(text: &str) -> (fragment: Self)
        ensures
            fragment@ == text@,
    {
        WgslFragment { text: String::from_str(text) }
    }

    /// Appends `text`.
    pub fn write(&mut self, text: &str)
        ensures
            final(self)@ == old(self)@ + text@,
    {
        self.text.append(text);
    }

    /// Appends the decimal numeral of `n`.
    pub fn write_number(&mut self, n: u64)
        ensures
            final(self)@ == old(self)@ + decimal(n as nat),
    {
        write_decimal(&mut self.text, n);
    }

    /// The text of the fragment.
    pub fn as_str(&self) -> (text: &str)
        ensures
            text@ == self@,
    {
        self.text.as_str()
    }
}

/// The texts of a list of fragments.
pub open spec fn texts(fragments: Seq<WgslFragment>) -> Seq<Seq<char>> {
    Seq::new(fragments.len(), |i: int| fragments[i]@)
}

/// Where in the rendered kernel a fragment goes.
#[derive(Clone, Copy, Debug, PartialEq, Eq, Hash, Structural)]
pub enum FragmentKind {
    /// A storage buffer declaration.
    Binding,
    /// The metadata block.
    Metadata,
    /// Statements of the entry point.
    Statement,
}

/// The texts of the fragments of one kind, in order, run together.
pub open spec fn section(fragments: Seq<(FragmentKind, Seq<char>)>, kind: FragmentKind) -> Seq<char>
    decreases fragments.len(),
{
    if fragments.len() == 0 {
        Seq::empty()
    } else if fragments.last().0 == kind {
        section(fragments.drop_last(), kind) + fragments.last().1
    } else {
        section(fragments.drop_last(), kind)
    }
}

/// The declaration of the storage buffer `variable` in the slot `entry`.
pub open spec fn binding_declaration(entry: BindGroupLayoutEntry, variable: Seq<char>) -> Seq<char> {
    BINDING_GROUP@ + decimal(entry.binding as nat) + (if entry.read_only {
        BINDING_READ@
    } else {
        BINDING_READ_WRITE@
    }) + variable
}

/// The declarations of `variables` in the slots `entries`, paired in order
/// for as long as both last.
pub open spec fn binding_declarations(
    entries: Seq<BindGroupLayoutEntry>,
    variables: Seq<Seq<char>>,
) -> Seq<(FragmentKind, Seq<char>)> {
    Seq::new(
        if entries.len() <= variables.len() {
            entries.len()
        } else {
            variables.len()
        },
        |i: int| (FragmentKind::Binding, binding_declaration(entries[i], variables[i])),
    )
}

/// A kernel as it stands while it is written.
pub struct KernelDraft {
    pub workgroup_size: WorkgroupSize,
    pub builtins: Seq<BuiltIn>,
    pub features: DeviceFeatures,
    pub fragments: Seq<(FragmentKind, Seq<char>)>,
}

impl KernelDraft {
    /// What stands before the declarations.
    pub open spec fn prelude(self) -> Seq<char> {
        if self.features.SHADER_F16 {
            ENABLE_F16@
        } else {
            Seq::empty()
        }
    }

    /// The head of the entry point, up to the opening brace of its body.
    pub open spec fn entry(self) -> Seq<char> {
        self.workgroup_size.attribute() + MAIN_OPEN@ + parameters(self.builtins) + MAIN_BODY@
    }

    /// The complete shader text.
    pub open spec fn source(self) -> Seq<char> {
        self.prelude() + section(self.fragments, FragmentKind::Binding) + section(
            self.fragments,
            FragmentKind::Metadata,
        ) + self.entry() + section(self.fragments, FragmentKind::Statement) + MAIN_CLOSE@
    }

    /// The draft with one more fragment.
    pub open spec fn with(self, kind: FragmentKind, text: Seq<char>) -> Self {
        KernelDraft { fragments: self.fragments.push((kind, text)), ..self }
    }
}

/// The uniform block of an operation.
pub trait OpMetadata {
    /// The declaration of the block's type, which is named `Meta`.
    spec fn spec_wgsl() -> Seq<char>;

    /// The declaration of the block's type, which is named `Meta`.
    fn render_wgsl() -> (fragment: WgslFragment)
        ensures
            fragment@ == Self::spec_wgsl(),
    ;
}

/// A rendered kernel.
#[derive(Debug)]
pub struct WgslKernel {
    source: String,
}

impl View for WgslKernel {
    type V = Seq<char>;

    closed spec fn view(&self) -> Seq<char> {
        self.source@
    }
}

impl WgslKernel {
    /// The shader text.
    pub fn as_str(&self) -> (text: &str)
        ensures
            text@ == self@,
    {
        self.source.as_str()
    }

    /// The shader text.
    pub fn to_string(&self) -> (text: String)
        ensures
            text@ == self@,
    {
        self.source.clone()
    }
}

/// Collects the fragments of a kernel and renders them.
#[derive(Debug)]
pub struct WgslKernelBuilder {
    workgroup_size: WorkgroupSize,
    builtins: Vec<BuiltIn>,
    features: DeviceFeatures,
    fragments: Vec<(FragmentKind, WgslFragment)>,
}

impl View for WgslKernelBuilder {
    type V = KernelDraft;

    closed spec fn view(&self) -> KernelDraft {
        KernelDraft {
            workgroup_size: self.workgroup_size,
            builtins: self.builtins@,
            features: self.features,
            fragments: Seq::new(
                self.fragments@.len(),
                |i: int| (self.fragments@[i].0, self.fragments@[i].1@),
            ),
        }
    }
}

/// Dropping the last of `n + 1` leading fragments leaves the `n` leading ones.
proof fn lemma_take_step<T>(s: Seq<T>, n: int)
    requires
        0 <= n < s.len(),
    ensures
        s.take(n + 1).drop_last() == s.take(n),
        s.take(n + 1).last() == s[n],
{
    assert(s.take(n + 1).drop_last() =~= s.take(n));
}

impl WgslKernelBuilder {
    /// A kernel without fragments.
    pub fn new(workgroup_size: WorkgroupSize, builtins: Vec<BuiltIn>, features: DeviceFeatures) -> (builder:
        Self)
        ensures
            builder@ == (KernelDraft {
                workgroup_size,
                builtins: builtins@,
                features,
                fragments: Seq::empty(),
            }),
    {
        let builder = WgslKernelBuilder {
            workgroup_size,
            builtins,
            features,
            fragments: Vec::new(),
        };
        assert(builder@.fragments =~= Seq::empty());
        builder
    }

    fn write_fragment(&mut self, kind: FragmentKind, fragment: WgslFragment)
        ensures
            final(self)@ == old(self)@.with(kind, fragment@),
    {
        self.fragments.push((kind, fragment));
        assert(self@.fragments =~= old(self)@.fragments.push((kind, fragment@)));
    }

    /// Declares `bind_vars` as the storage buffers in the slots of
    /// `bindings`, the first variable in the first slot and so on. Where one
    /// list is longer than the other, what is left of it is not used.
    pub fn write_bindings(&mut self, bindings: &BindGroupLayoutDescriptor, bind_vars: Vec<WgslFragment>)
        ensures
            final(self)@ == (KernelDraft {
                fragments: old(self)@.fragments + binding_declarations(
                    bindings@,
                    texts(bind_vars@),
                ),
                ..old(self)@
            }),
    {
        let ghost declarations = binding_declarations(bindings@, texts(bind_vars@));
        let mut i: usize = 0;
        while i < bindings.entries.len() && i < bind_vars.len()
            invariant
                0 <= i <= bindings.entries.len(),
                i <= bind_vars.len(),
                declarations == binding_declarations(bindings@, texts(bind_vars@)),
                self@ == (KernelDraft {
                    fragments: old(self)@.fragments + declarations.take(i as int),
                    ..old(self)@
                }),
            decreases bindings.entries.len() - i,
        {
            let entry = bindings.entries[i];
            let mut declaration = WgslFragment::new();
            declaration.write(BINDING_GROUP);
            declaration.write_number(entry.binding as u64);
            if entry.read_only {
                declaration.write(BINDING_READ);
            } else {
                declaration.write(BINDING_READ_WRITE);
            }
            declaration.write(bind_vars[i].as_str());
            proof {
                assert(declaration@ =~= binding_declaration(bindings@[i as int], bind_vars@[i as int]@));
                assert(declarations.take(i as int + 1) =~= declarations.take(i as int).push(
                    (FragmentKind::Binding, declaration@),
                ));
                assert(old(self)@.fragments + declarations.take(i as int + 1) =~= (old(
                    self,
                )@.fragments + declarations.take(i as int)).push(
                    (FragmentKind::Binding, declaration@),
                ));
            }
            self.write_fragment(FragmentKind::Binding, declaration);
            i += 1;
        }
        assert(declarations.take(i as int) =~= declarations);
    }

    /// Writes the metadata block: the declaration of its type and the
    /// uniform binding named `metadata`.
    pub fn write_metadata<M: OpMetadata>(&mut self)
        ensures
            final(self)@ == old(self)@.with(
                FragmentKind::Metadata,
                M::spec_wgsl() + METADATA_BINDING@,
            ),
    {
        let mut block = M::render_wgsl();
        block.write(METADATA_BINDING);
        self.write_fragment(FragmentKind::Metadata, block);
    }

    /// Writes statements of the entry point.
    pub fn write_main(&mut self, fragment: WgslFragment)
        ensures
            final(self)@ == old(self)@.with(FragmentKind::Statement, fragment@),
    {
        self.write_fragment(FragmentKind::Statement, fragment);
    }

    fn write_section(&self, out: &mut String, kind: FragmentKind)
        ensures
            final(out)@ == old(out)@ + section(self@.fragments, kind),
    {
        let ghost fragments = self@.fragments;
        let mut i: usize = 0;
        while i < self.fragments.len()
            invariant
                0 <= i <= self.fragments.len(),
                fragments == self@.fragments,
                fragments.len() == self.fragments.len(),
                out@ == old(out)@ + section(fragments.take(i as int), kind),
            decreases self.fragments.len() - i,
        {
            proof {
                lemma_take_step(fragments, i as int);
            }
            if self.fragments[i].0 == kind {
                out.append(self.fragments[i].1.as_str());
            }
            assert(out@ =~= old(out)@ + section(fragments.take(i as int + 1), kind));
            i += 1;
        }
        assert(fragments.take(i as int) =~= fragments);
    }

    fn write_entry(&self, out: &mut String)
        ensures
            final(out)@ == old(out)@ + self@.entry(),
    {
        self.workgroup_size.write_attribute(out);
        out.append(MAIN_OPEN);
        let ghost base = out@;
        let mut i: usize = 0;
        while i < self.builtins.len()
            invariant
                0 <= i <= self.builtins.len(),
                out@ == base + parameters(self.builtins@.take(i as int)),
            decreases self.builtins.len() - i,
        {
            proof {
                lemma_take_step(self.builtins@, i as int);
            }
            out.append(self.builtins[i].render());
            assert(out@ =~= base + parameters(self.builtins@.take(i as int + 1)));
            i += 1;
        }
        assert(self.builtins@.take(i as int) =~= self.builtins@);
        out.append(MAIN_BODY);
        assert(out@ =~= old(out)@ + self@.entry());
    }

    /// Renders the kernel.
    pub fn render(self) -> (kernel: WgslKernel)
        ensures
            kernel@ == self@.source(),
    {
        let mut source = String::new();
        if self.features.SHADER_F16 {
            source.append(ENABLE_F16);
        }
        self.write_section(&mut source, FragmentKind::Binding);
        self.write_section(&mut source, FragmentKind::Metadata);
        self.write_entry(&mut source);
        self.write_section(&mut source, FragmentKind::Statement);
        source.append(MAIN_CLOSE);
        assert(source@ =~= self@.source());
        WgslKernel { source }
    }
}

} // verus!
