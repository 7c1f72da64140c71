//! Tensor storage types and the element types that kernels are specialised over.

use vstd::prelude::*;

verus! {

/// Block-quantised storage formats.
#[allow(non_camel_case_types)]
#[derive(Clone, Copy, Debug, PartialEq, Eq, Hash, Structural)]
pub enum GGUFDType {
    /// 4-bit blocks with super-block scales.
    Q4K,
    /// 6-bit blocks with super-block scales.
    Q6K,
    /// 8-bit blocks of 32 values that share one scale.
    Q8_0,
}

/// How a tensor is stored.
#[derive(Clone, Copy, Debug, PartialEq, Eq, Hash, Structural)]
pub enum DType {
    F16,
    F32,
    I32,
    U32,
    GGUF(GGUFDType),
}

impl DType {
    /// Whether the type is one of the block-quantised formats.
    pub open spec fn quantized(self) -> bool {
        self is GGUF
    }

    /// Whether the type is one of the block-quantised formats.
    pub fn is_quantized(&self) -> (r: bool)
        ensures
            r == self.quantized(),
    {
        match self {
            DType::GGUF(_) => true,
            _ => false,
        }
    }
}

/// The floating-point types a kernel can compute in.
#[derive(Clone, Copy, Debug, PartialEq, Eq, Hash, Structural)]
pub enum WgslDType {
    F32,
    F16,
}

pub const DT_F32: &'static str = "f32";

pub const DT_F16: &'static str = "f16";

impl WgslDType {
    /// The name of the type in shader text.
    pub open spec fn spec_dt(self) -> Seq<char> {
        match self {
            WgslDType::F32 => DT_F32@,
            WgslDType::F16 => DT_F16@,
        }
    }

    /// The name of the type in shader text.
    pub fn dt(&self) -> (name: &'static str)
        ensures
            name@ == self.spec_dt(),
    {
        match self {
            WgslDType::F32 => DT_F32,
            WgslDType::F16 => DT_F16,
        }
    }
}


/// How many values a kernel handles at a time.
#[derive(Clone, Copy, Debug, PartialEq, Eq, Hash, Structural)]
pub enum KernelElement {
    Scalar,
    Vec2,
    Vec4,
}

pub const VEC2_OPEN: &'static str = "vec2<";

pub const VEC4_OPEN: &'static str = "vec4<";

pub const VEC_CLOSE: &'static str = ">";

impl KernelElement {
    /// The number of values in one element.
    pub open spec fn spec_width(self) -> nat {
        match self {
            KernelElement::Scalar => 1,
            KernelElement::Vec2 => 2,
            KernelElement::Vec4 => 4,
        }
    }

    /// The number of values in one element.
    pub fn width(&self) -> (n: u64)
        ensures
            n == self.spec_width(),
    {
        match self {
            KernelElement::Scalar => 1,
            KernelElement::Vec2 => 2,
            KernelElement::Vec4 => 4,
        }
    }
}

/// The element type of a kernel: a floating-point type, alone or in a vector.
#[derive(Clone, Copy, Debug, PartialEq, Eq, Hash, Structural)]
pub struct WgslPrimitive {
    pub dt: WgslDType,
    pub element: KernelElement,
}

impl WgslPrimitive {
    /// The element of the given type and width.
    pub fn new(dt: WgslDType, element: KernelElement) -> (primitive: Self)
        ensures
            primitive == (WgslPrimitive { dt, element }),
    {
        WgslPrimitive { dt, element }
    }

    /// The number of values in one element.
    pub open spec fn spec_width(self) -> nat {
        self.element.spec_width()
    }

    /// The name of the element type in shader text.
    pub open spec fn spec_render_type(self) -> Seq<char> {
        match self.element {
            KernelElement::Scalar => self.dt.spec_dt(),
            KernelElement::Vec2 => VEC2_OPEN@ + self.dt.spec_dt() + VEC_CLOSE@,
            KernelElement::Vec4 => VEC4_OPEN@ + self.dt.spec_dt() + VEC_CLOSE@,
        }
    }

    /// Appends the name of the element type to `out`.
    pub fn render_type(&self, out: &mut crate::kernel::WgslFragment)
        ensures
            final(out)@ == old(out)@ + self.spec_render_type(),
    {
        match self.element {
            KernelElement::Scalar => {
                out.write(self.dt.dt());
            },
            KernelElement::Vec2 => {
                out.write(VEC2_OPEN);
                out.write(self.dt.dt());
                out.write(VEC_CLOSE);
            },
            KernelElement::Vec4 => {
                out.write(VEC4_OPEN);
                out.write(self.dt.dt());
                out.write(VEC_CLOSE);
            },
        }
        assert(out@ =~= old(out)@ + self.spec_render_type());
    }
}

} // verus!
