//! The driver calls that the handles plan. Each variant is one call of the
//! OpenGL API with its arguments as plain values; whoever owns the rendering
//! context performs them in order.
use vstd::prelude::*;

verus! {

#[derive(Debug, Clone, Copy, PartialEq, Eq, Structural)]
pub enum GlCall {
    /// `glBindBuffer(target, buffer)`
    BindBuffer { target: u32, buffer: u32 },
    /// `glBufferData(target, size, data, usage)`, with the caller's data.
    BufferData { target: u32, size: isize, usage: u32 },
    /// `glBufferSubData(target, offset, size, data)`, with the caller's data.
    BufferSubData { target: u32, offset: usize, size: isize },
    /// `glDeleteBuffers(1, &buffer)`
    DeleteBuffer { buffer: u32 },
    /// `glDeleteShader(shader)`
    DeleteShader { shader: u32 },
    /// `glAttachShader(program, shader)`
    AttachShader { program: u32, shader: u32 },
    /// `glLinkProgram(program)`
    LinkProgram { program: u32 },
    /// `glUseProgram(program)`
    UseProgram { program: u32 },
    /// `glDeleteProgram(program)`
    DeleteProgram { program: u32 },
    /// `glBindVertexArray(array)`
    BindVertexArray { array: u32 },
    /// `glEnableVertexAttribArray(index)`
    EnableVertexAttribArray { index: usize },
    /// `glVertexAttribPointer(index, components, kind, normalized, stride, offset)`
    VertexAttribPointer {
        index: usize,
        components: u32,
        kind: u32,
        normalized: u8,
        stride: usize,
        offset: usize,
    },
    /// `glDrawArrays(mode, first, count)`
    DrawArrays { mode: u32, first: i32, count: i32 },
    /// `glDeleteVertexArrays(1, &array)`
    DeleteVertexArray { array: u32 },
}

} // verus!
