//! Owning handles for GPU buffers, shaders, programs and vertex arrays, with
//! the driver work each operation needs stated as a plan of driver calls.
pub mod buffer;
pub mod codes;
pub mod command;
pub mod error;
pub mod program;
pub mod shader;
pub mod vertex_array;

pub use crate::buffer::{Buffer, BufferTarget, BufferUsage};
pub use crate::command::GlCall;
pub use crate::error::check_gl_error;
pub use crate::program::Program;
pub use crate::shader::{Shader, ShaderType};
pub use crate::vertex_array::{
    VertexArray, VertexArrayBuilder, VertexAttribute, VertexAttributeType,
};
