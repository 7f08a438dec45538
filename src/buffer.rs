use vstd::prelude::*;

use crate::codes::{
    GL_ARRAY_BUFFER,
    GL_DYNAMIC_COPY,
    GL_DYNAMIC_DRAW,
    GL_DYNAMIC_READ,
    GL_ELEMENT_ARRAY_BUFFER,
    GL_STATIC_COPY,
    GL_STATIC_DRAW,
    GL_STATIC_READ,
    GL_STREAM_COPY,
    GL_STREAM_DRAW,
    GL_STREAM_READ,
    GL_UNIFORM_BUFFER,
};
use crate::command::GlCall;

verus! {

/// How a buffer is bound: vertex data, index data or uniform data.
#[derive(Debug, Clone, Copy, PartialEq, Eq, Structural)]
pub enum BufferTarget {
    ArrayBuffer,
    ElementArrayBuffer,
    UniformBuffer,
}

impl BufferTarget {
    pub open spec fn spec_code(self) -> u32 {
        match self {
            BufferTarget::ArrayBuffer => GL_ARRAY_BUFFER,
            BufferTarget::ElementArrayBuffer => GL_ELEMENT_ARRAY_BUFFER,
            BufferTarget::UniformBuffer => GL_UNIFORM_BUFFER,
        }
    }

    /// The driver's enumerant for this target.
    pub fn code(self) -> (r: u32)
        ensures
            r == self.spec_code(),
    {
        match self {
            BufferTarget::ArrayBuffer => GL_ARRAY_BUFFER,
            BufferTarget::ElementArrayBuffer => GL_ELEMENT_ARRAY_BUFFER,
            BufferTarget::UniformBuffer => GL_UNIFORM_BUFFER,
        }
    }
}

/// The driver's enumerants for buffer targets.
pub open spec fn buffer_target_codes() -> Set<u32> {
    set![GL_ARRAY_BUFFER, GL_ELEMENT_ARRAY_BUFFER, GL_UNIFORM_BUFFER]
}

/// Every target maps into the target enumerants, and no two targets share one.
pub proof fn lemma_buffer_target_codes(a: BufferTarget, b: BufferTarget)
    ensures
        buffer_target_codes().contains(a.spec_code()),
        a.spec_code() == b.spec_code() <==> a == b,
{
}

/// How often the contents of a buffer are expected to be written and read.
#[derive(Debug, Clone, Copy, PartialEq, Eq, Structural)]
pub enum BufferUsage {
    DynamicCopy,
    DynamicDraw,
    DynamicRead,
    StaticCopy,
    StaticDraw,
    StaticRead,
    StreamCopy,
    StreamDraw,
    StreamRead,
}

impl BufferUsage {
    pub open spec fn spec_code(self) -> u32 {
        match self {
            BufferUsage::DynamicCopy => GL_DYNAMIC_COPY,
            BufferUsage::DynamicDraw => GL_DYNAMIC_DRAW,
            BufferUsage::DynamicRead => GL_DYNAMIC_READ,
            BufferUsage::StaticCopy => GL_STATIC_COPY,
            BufferUsage::StaticDraw => GL_STATIC_DRAW,
            BufferUsage::StaticRead => GL_STATIC_READ,
            BufferUsage::StreamCopy => GL_STREAM_COPY,
            BufferUsage::StreamDraw => GL_STREAM_DRAW,
            BufferUsage::StreamRead => GL_STREAM_READ,
        }
    }

    /// The driver's enumerant for this usage.
    pub fn code(self) -> (r: u32)
        ensures
            r == self.spec_code(),
    {
        match self {
            BufferUsage::DynamicCopy => GL_DYNAMIC_COPY,
            BufferUsage::DynamicDraw => GL_DYNAMIC_DRAW,
            BufferUsage::DynamicRead => GL_DYNAMIC_READ,
            BufferUsage::StaticCopy => GL_STATIC_COPY,
            BufferUsage::StaticDraw => GL_STATIC_DRAW,
            BufferUsage::StaticRead => GL_STATIC_READ,
            BufferUsage::StreamCopy => GL_STREAM_COPY,
            BufferUsage::StreamDraw => GL_STREAM_DRAW,
            BufferUsage::StreamRead => GL_STREAM_READ,
        }
    }
}

/// The driver's enumerants for buffer usages.
pub open spec fn buffer_usage_codes() -> Set<u32> {
    set![
        GL_DYNAMIC_COPY,
        GL_DYNAMIC_DRAW,
        GL_DYNAMIC_READ,
        GL_STATIC_COPY,
        GL_STATIC_DRAW,
        GL_STATIC_READ,
        GL_STREAM_COPY,
        GL_STREAM_DRAW,
        GL_STREAM_READ,
    ]
}

/// Every usage maps into the usage enumerants, and no two usages share one.
pub proof fn lemma_buffer_usage_codes(a: BufferUsage, b: BufferUsage)
    ensures
        buffer_usage_codes().contains(a.spec_code()),
        a.spec_code() == b.spec_code() <==> a == b,
{
}

/// The size in bytes of `len` elements of `elem_size` bytes each.
pub open spec fn byte_size(len: usize, elem_size: usize) -> int {
    len * elem_size
}

/// A buffer object of the driver, owned by this value: it is not `Clone`, and
/// `release` consumes it, so its name is deleted at most once.
pub struct Buffer {
    id: u32,
}

impl Buffer {
    pub closed spec fn spec_id(&self) -> u32 {
        self.id
    }

    /// Takes ownership of the buffer object `id` (from `glGenBuffers`) and
    /// plans filling it with `len` elements of `elem_size` bytes: bind it to
    /// `target`, then upload the data with `usage`. A slice never spans more
    /// than `isize::MAX` bytes.
    pub fn new(id: u32, len: usize, elem_size: usize, target: BufferTarget, usage: BufferUsage) -> (r: (
        Buffer,
        Vec<GlCall>,
    ))
        requires
            byte_size(len, elem_size) <= isize::MAX,
        ensures
            r.0.spec_id() == id,
            r.1@ == seq![
                GlCall::BindBuffer { target: target.spec_code(), buffer: id },
                GlCall::BufferData {
                    target: target.spec_code(),
                    size: byte_size(len, elem_size) as isize,
                    usage: usage.spec_code(),
                },
            ],
    {
        let buffer = Buffer { id };
        let mut calls: Vec<GlCall> = Vec::new();
        calls.push(buffer.bind(target));
        calls.push(buffer.buffer_data(len, elem_size, target, usage));
        (buffer, calls)
    }

    /// The driver's name of this buffer.
    pub fn get_id(&self) -> (r: u32)
        ensures
            r == self.spec_id(),
    {
        self.id
    }

    /// Binds this buffer to `target`.
    pub fn bind(&self, target: BufferTarget) -> (r: GlCall)
        ensures
            r == (GlCall::BindBuffer { target: target.spec_code(), buffer: self.spec_id() }),
    {
        GlCall::BindBuffer { target: target.code(), buffer: self.id }
    }

    /// Replaces the storage of the buffer bound to `target` with `len`
    /// elements of `elem_size` bytes.
    pub fn buffer_data(&self, len: usize, elem_size: usize, target: BufferTarget, usage: BufferUsage) -> (r:
        GlCall)
        requires
            byte_size(len, elem_size) <= isize::MAX,
        ensures
            r == (GlCall::BufferData {
                target: target.spec_code(),
                size: byte_size(len, elem_size) as isize,
                usage: usage.spec_code(),
            }),
    {
        let size = Self::checked_size(len, elem_size);
        GlCall::BufferData { target: target.code(), size, usage: usage.code() }
    }

    /// Overwrites `len` elements of `elem_size` bytes of the buffer bound to
    /// `target`, starting `offset` bytes in.
    pub fn buffer_sub_data(&self, len: usize, elem_size: usize, offset: usize, target: BufferTarget) -> (r:
        GlCall)
        requires
            byte_size(len, elem_size) <= isize::MAX,
        ensures
            r == (GlCall::BufferSubData {
                target: target.spec_code(),
                offset,
                size: byte_size(len, elem_size) as isize,
            }),
    {
        let size = Self::checked_size(len, elem_size);
        GlCall::BufferSubData { target: target.code(), offset, size }
    }

    /// Gives up ownership: the call deletes exactly the name this buffer held.
    pub fn release(self) -> (r: GlCall)
        ensures
            r == (GlCall::DeleteBuffer { buffer: self.spec_id() }),
    {
        GlCall::DeleteBuffer { buffer: self.id }
    }

    fn checked_size(len: usize, elem_size: usize) -> (r: isize)
        requires
            byte_size(len, elem_size) <= isize::MAX,
        ensures
            r == byte_size(len, elem_size),
    {
        proof {
            assert(len * elem_size <= isize::MAX);
        }
        let bytes: usize = len * elem_size;
        bytes as isize
    }
}

} // verus!
