use vstd::prelude::*;

use crate::buffer::{Buffer, BufferTarget};
use crate::codes::{
    GL_BYTE,
    GL_DOUBLE,
    GL_FALSE,
    GL_FIXED,
    GL_FLOAT,
    GL_HALF_FLOAT,
    GL_INT,
    GL_SHORT,
    GL_TRIANGLES,
    GL_TRUE,
    GL_UNSIGNED_BYTE,
    GL_UNSIGNED_INT,
    GL_UNSIGNED_SHORT,
};
use crate::command::GlCall;

verus! {

/// The scalar type of one component of a vertex attribute. The driver ignores
/// normalisation for the floating-point and fixed-point kinds; it is left to
/// the caller to pass `false` for them.
#[derive(Debug, Clone, Copy, PartialEq, Eq, Structural)]
pub enum VertexAttributeType {
    Byte,
    Double,
    Fixed,
    Float,
    HalfFloat,
    Int,
    Short,
    UnsignedByte,
    UnsignedInt,
    UnsignedShort,
}

impl VertexAttributeType {
    pub open spec fn spec_code(self) -> u32 {
        match self {
            VertexAttributeType::Byte => GL_BYTE,
            VertexAttributeType::Double => GL_DOUBLE,
            VertexAttributeType::Fixed => GL_FIXED,
            VertexAttributeType::Float => GL_FLOAT,
            VertexAttributeType::HalfFloat => GL_HALF_FLOAT,
            VertexAttributeType::Int => GL_INT,
            VertexAttributeType::Short => GL_SHORT,
            VertexAttributeType::UnsignedByte => GL_UNSIGNED_BYTE,
            VertexAttributeType::UnsignedInt => GL_UNSIGNED_INT,
            VertexAttributeType::UnsignedShort => GL_UNSIGNED_SHORT,
        }
    }

    /// The driver's enumerant for this scalar type.
    pub fn code(self) -> (r: u32)
        ensures
            r == self.spec_code(),
    {
        match self {
            VertexAttributeType::Byte => GL_BYTE,
            VertexAttributeType::Double => GL_DOUBLE,
            VertexAttributeType::Fixed => GL_FIXED,
            VertexAttributeType::Float => GL_FLOAT,
            VertexAttributeType::HalfFloat => GL_HALF_FLOAT,
            VertexAttributeType::Int => GL_INT,
            VertexAttributeType::Short => GL_SHORT,
            VertexAttributeType::UnsignedByte => GL_UNSIGNED_BYTE,
            VertexAttributeType::UnsignedInt => GL_UNSIGNED_INT,
            VertexAttributeType::UnsignedShort => GL_UNSIGNED_SHORT,
        }
    }
}

/// The driver's enumerants for attribute scalar types.
pub open spec fn vertex_attribute_type_codes() -> Set<u32> {
    set![
        GL_BYTE,
        GL_DOUBLE,
        GL_FIXED,
        GL_FLOAT,
        GL_HALF_FLOAT,
        GL_INT,
        GL_SHORT,
        GL_UNSIGNED_BYTE,
        GL_UNSIGNED_INT,
        GL_UNSIGNED_SHORT,
    ]
}

/// Every scalar type maps into the type enumerants, and no two share one.
pub proof fn lemma_vertex_attribute_type_codes(a: VertexAttributeType, b: VertexAttributeType)
    ensures
        vertex_attribute_type_codes().contains(a.spec_code()),
        a.spec_code() == b.spec_code() <==> a == b,
{
}

/// How one shader input reads its components out of each vertex record.
#[derive(Debug, Clone, Copy, PartialEq, Eq, Structural)]
pub struct VertexAttribute {
    /// Number of components.
    pub size: u32,
    pub kind: VertexAttributeType,
    pub normalised: bool,
    /// Bytes from one vertex record to the next.
    pub stride: usize,
    /// Bytes from the start of a record to this attribute.
    pub offset: usize,
}

/// `glVertexAttribPointer` for `attribute` in slot `index`.
pub open spec fn pointer_call(index: int, attribute: VertexAttribute) -> GlCall {
    GlCall::VertexAttribPointer {
        index: index as usize,
        components: attribute.size,
        kind: attribute.kind.spec_code(),
        normalized: if attribute.normalised {
            GL_TRUE
        } else {
            GL_FALSE
        },
        stride: attribute.stride,
        offset: attribute.offset,
    }
}

/// The calls that set up a vertex array `array` over `buffer`: bind the array,
/// bind the buffer as vertex data, then enable and describe each attribute in
/// turn, attribute `i` in slot `i`.
pub open spec fn is_setup_plan(
    calls: Seq<GlCall>,
    array: u32,
    buffer: u32,
    attributes: Seq<VertexAttribute>,
) -> bool {
    &&& calls.len() == 2 + 2 * attributes.len()
    &&& calls[0] == GlCall::BindVertexArray { array }
    &&& calls[1] == GlCall::BindBuffer { target: BufferTarget::ArrayBuffer.spec_code(), buffer }
    &&& forall|i: int|
        0 <= i < attributes.len() ==> {
            &&& #[trigger] calls[2 + 2 * i] == GlCall::EnableVertexAttribArray { index: i as usize }
            &&& calls[3 + 2 * i] == pointer_call(i, attributes[i])
        }
}

/// The attribute slots that `calls` enable.
pub open spec fn enabled_slots(calls: Seq<GlCall>) -> Set<usize> {
    Set::new(
        |index: usize|
            exists|k: int|
                0 <= k < calls.len() && calls[k] == (GlCall::EnableVertexAttribArray { index }),
    )
}

/// A vertex array built with no attributes enables no attribute slot.
pub proof fn lemma_empty_layout_enables_nothing(calls: Seq<GlCall>, array: u32, buffer: u32)
    requires
        is_setup_plan(calls, array, buffer, Seq::empty()),
    ensures
        enabled_slots(calls) == Set::<usize>::empty(),
{
    assert(enabled_slots(calls) =~= Set::<usize>::empty());
}

/// A vertex array built from `attributes`, appended in that order, enables
/// exactly the slots `0..n` for its `n` attributes, and describes slot `i` with
/// the component count, scalar type, normalisation, stride and offset of
/// attribute `i`, unchanged.
pub proof fn lemma_layout_slots_follow_order(
    calls: Seq<GlCall>,
    array: u32,
    buffer: u32,
    attributes: Seq<VertexAttribute>,
)
    requires
        is_setup_plan(calls, array, buffer, attributes),
    ensures
        enabled_slots(calls) == Set::new(|index: usize| index < attributes.len()),
        forall|i: int|
            0 <= i < attributes.len() ==> {
                let a = #[trigger] attributes[i];
                calls[3 + 2 * i] == (GlCall::VertexAttribPointer {
                    index: i as usize,
                    components: a.size,
                    kind: a.kind.spec_code(),
                    normalized: if a.normalised {
                        GL_TRUE
                    } else {
                        GL_FALSE
                    },
                    stride: a.stride,
                    offset: a.offset,
                })
            },
{
    let n = attributes.len();
    assert forall|index: usize| #[trigger]
        enabled_slots(calls).contains(index) implies index < n by {
        let k = choose|k: int|
            0 <= k < calls.len() && calls[k] == (GlCall::EnableVertexAttribArray { index });
        let j = (k - 2) / 2;
        assert(k == 2 + 2 * j || k == 3 + 2 * j);
        assert(calls[2 + 2 * j] == (GlCall::EnableVertexAttribArray { index: j as usize }));
    }
    assert forall|index: usize| index < n implies #[trigger] enabled_slots(calls).contains(
        index,
    ) by {
        let k = 2 + 2 * (index as int);
        assert(calls[k] == (GlCall::EnableVertexAttribArray { index }));
    }
    assert(enabled_slots(calls) =~= Set::new(|index: usize| index < n));
    assert forall|i: int| 0 <= i < n implies calls[3 + 2 * i] == pointer_call(
        i,
        #[trigger] attributes[i],
    ) by {
        assert(calls[2 + 2 * i] == (GlCall::EnableVertexAttribArray { index: i as usize }));
    }
}

/// An ordered list of attribute descriptions, consumed by `build`.
pub struct VertexArrayBuilder {
    attributes: Vec<VertexAttribute>,
}

impl View for VertexArrayBuilder {
    type V = Seq<VertexAttribute>;

    closed spec fn view(&self) -> Seq<VertexAttribute> {
        self.attributes@
    }
}

impl VertexArrayBuilder {
    /// A builder with no attributes.
    pub fn new() -> (r: VertexArrayBuilder)
        ensures
            r@ == Seq::<VertexAttribute>::empty(),
    {
        VertexArrayBuilder { attributes: Vec::new() }
    }

    /// Appends one attribute; it takes the next slot.
    pub fn attribute(
        self,
        size: u32,
        kind: VertexAttributeType,
        normalised: bool,
        stride: usize,
        offset: usize,
    ) -> (r: VertexArrayBuilder)
        ensures
            r@ == self@.push(VertexAttribute { size, kind, normalised, stride, offset }),
    {
        let mut attributes = self.attributes;
        attributes.push(VertexAttribute { size, kind, normalised, stride, offset });
        VertexArrayBuilder { attributes }
    }

    /// Turns the description into the vertex array object `id` (from
    /// `glGenVertexArrays`) reading from `buffer`; `setup` gives its calls.
    pub fn build(self, id: u32, buffer: &Buffer) -> (r: VertexArray)
        ensures
            r.spec_id() == id,
            r.spec_buffer() == buffer.spec_id(),
            r.spec_attributes() == self@,
    {
        VertexArray::new(id, buffer, self.attributes)
    }
}

/// A vertex array object of the driver, owned by this value, with the buffer
/// it reads from and its attributes, attribute `i` in slot `i`. The buffer
/// must outlive it; that is left to the caller.
pub struct VertexArray {
    id: u32,
    buffer: u32,
    attributes: Vec<VertexAttribute>,
}

impl VertexArray {
    pub closed spec fn spec_id(&self) -> u32 {
        self.id
    }

    pub closed spec fn spec_buffer(&self) -> u32 {
        self.buffer
    }

    pub closed spec fn spec_attributes(&self) -> Seq<VertexAttribute> {
        self.attributes@
    }

    fn new(id: u32, vertex_buffer: &Buffer, attributes: Vec<VertexAttribute>) -> (r: VertexArray)
        ensures
            r.spec_id() == id,
            r.spec_buffer() == vertex_buffer.spec_id(),
            r.spec_attributes() == attributes@,
    {
        VertexArray { id, buffer: vertex_buffer.get_id(), attributes }
    }

    /// The driver's name of this vertex array.
    pub fn get_id(&self) -> (r: u32)
        ensures
            r == self.spec_id(),
    {
        self.id
    }

    /// The attributes, in slot order.
    pub fn attributes(&self) -> (r: &[VertexAttribute])
        ensures
            r@ == self.spec_attributes(),
    {
        self.attributes.as_slice()
    }

    /// The calls that record the buffer and every attribute in this array.
    pub fn setup(&self) -> (r: Vec<GlCall>)
        ensures
            is_setup_plan(r@, self.spec_id(), self.spec_buffer(), self.spec_attributes()),
    {
        let mut calls: Vec<GlCall> = Vec::new();
        calls.push(self.bind());
        calls.push(GlCall::BindBuffer { target: BufferTarget::ArrayBuffer.code(), buffer: self.buffer });
        let n = self.attributes.len();
        let mut i: usize = 0;
        while i < n
            invariant
                n == self.attributes@.len(),
                i <= n,
                calls@.len() == 2 + 2 * i,
                calls@[0] == (GlCall::BindVertexArray { array: self.id }),
                calls@[1] == (GlCall::BindBuffer {
                    target: BufferTarget::ArrayBuffer.spec_code(),
                    buffer: self.buffer,
                }),
                forall|j: int|
                    0 <= j < i ==> {
                        &&& #[trigger] calls@[2 + 2 * j] == GlCall::EnableVertexAttribArray {
                            index: j as usize,
                        }
                        &&& calls@[3 + 2 * j] == pointer_call(j, self.attributes@[j])
                    },
            decreases n - i,
        {
            let attribute = self.attributes[i];
            let normalized: u8 = if attribute.normalised {
                GL_TRUE
            } else {
                GL_FALSE
            };
            calls.push(GlCall::EnableVertexAttribArray { index: i });
            calls.push(
                GlCall::VertexAttribPointer {
                    index: i,
                    components: attribute.size,
                    kind: attribute.kind.code(),
                    normalized,
                    stride: attribute.stride,
                    offset: attribute.offset,
                },
            );
            i = i + 1;
        }
        calls
    }

    /// Makes this the active vertex array.
    pub fn bind(&self) -> (r: GlCall)
        ensures
            r == (GlCall::BindVertexArray { array: self.spec_id() }),
    {
        GlCall::BindVertexArray { array: self.id }
    }

    /// Binds this array and draws one triangle from its first three vertices,
    /// with whatever program the caller made current.
    pub fn draw(&self) -> (r: Vec<GlCall>)
        ensures
            r@ == seq![
                GlCall::BindVertexArray { array: self.spec_id() },
                GlCall::DrawArrays { mode: GL_TRIANGLES, first: 0, count: 3 },
            ],
    {
        let mut calls: Vec<GlCall> = Vec::new();
        calls.push(self.bind());
        calls.push(GlCall::DrawArrays { mode: GL_TRIANGLES, first: 0, count: 3 });
        calls
    }

    /// Gives up ownership: the call deletes exactly the name this array held.
    pub fn release(self) -> (r: GlCall)
        ensures
            r == (GlCall::DeleteVertexArray { array: self.spec_id() }),
    {
        GlCall::DeleteVertexArray { array: self.id }
    }
}

} // verus!
