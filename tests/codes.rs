use mini_engine::codes;
use mini_engine::{check_gl_error, BufferTarget, BufferUsage, ShaderType, VertexAttributeType};

fn assert_distinct(codes: &[u32]) {
    for i in 0..codes.len() {
        for j in 0..codes.len() {
            if i != j {
                assert_ne!(codes[i], codes[j]);
            }
        }
    }
}

#[test]
fn buffer_target_codes_match_driver() {
    let table = [
        (BufferTarget::ArrayBuffer, gl::ARRAY_BUFFER),
        (BufferTarget::ElementArrayBuffer, gl::ELEMENT_ARRAY_BUFFER),
        (BufferTarget::UniformBuffer, gl::UNIFORM_BUFFER),
    ];
    for (target, code) in table.iter() {
        assert_eq!(target.code(), *code);
    }
    let codes: Vec<u32> = table.iter().map(|(t, _)| t.code()).collect();
    assert_distinct(&codes);
}

#[test]
fn buffer_usage_codes_match_driver() {
    let table = [
        (BufferUsage::DynamicCopy, gl::DYNAMIC_COPY),
        (BufferUsage::DynamicDraw, gl::DYNAMIC_DRAW),
        (BufferUsage::DynamicRead, gl::DYNAMIC_READ),
        (BufferUsage::StaticCopy, gl::STATIC_COPY),
        (BufferUsage::StaticDraw, gl::STATIC_DRAW),
        (BufferUsage::StaticRead, gl::STATIC_READ),
        (BufferUsage::StreamCopy, gl::STREAM_COPY),
        (BufferUsage::StreamDraw, gl::STREAM_DRAW),
        (BufferUsage::StreamRead, gl::STREAM_READ),
    ];
    for (usage, code) in table.iter() {
        assert_eq!(usage.code(), *code);
    }
    let codes: Vec<u32> = table.iter().map(|(u, _)| u.code()).collect();
    assert_distinct(&codes);
}

#[test]
fn shader_type_codes_match_driver() {
    let table = [
        (ShaderType::Fragment, gl::FRAGMENT_SHADER),
        (ShaderType::Geometry, gl::GEOMETRY_SHADER),
        (ShaderType::Vertex, gl::VERTEX_SHADER),
    ];
    for (kind, code) in table.iter() {
        assert_eq!(kind.code(), *code);
    }
    let codes: Vec<u32> = table.iter().map(|(k, _)| k.code()).collect();
    assert_distinct(&codes);
}

#[test]
fn vertex_attribute_type_codes_match_driver() {
    let table = [
        (VertexAttributeType::Byte, gl::BYTE),
        (VertexAttributeType::Double, gl::DOUBLE),
        (VertexAttributeType::Fixed, gl::FIXED),
        (VertexAttributeType::Float, gl::FLOAT),
        (VertexAttributeType::HalfFloat, gl::HALF_FLOAT),
        (VertexAttributeType::Int, gl::INT),
        (VertexAttributeType::Short, gl::SHORT),
        (VertexAttributeType::UnsignedByte, gl::UNSIGNED_BYTE),
        (VertexAttributeType::UnsignedInt, gl::UNSIGNED_INT),
        (VertexAttributeType::UnsignedShort, gl::UNSIGNED_SHORT),
    ];
    for (kind, code) in table.iter() {
        assert_eq!(kind.code(), *code);
    }
    let codes: Vec<u32> = table.iter().map(|(k, _)| k.code()).collect();
    assert_distinct(&codes);
}

#[test]
fn other_codes_match_driver() {
    assert_eq!(codes::GL_TRUE, gl::TRUE);
    assert_eq!(codes::GL_FALSE, gl::FALSE);
    assert_eq!(codes::GL_STATUS_TRUE, gl::TRUE as i32);
    assert_eq!(codes::GL_TRIANGLES, gl::TRIANGLES);
    assert_eq!(codes::GL_NO_ERROR, gl::NO_ERROR);
    assert_eq!(codes::GL_INVALID_ENUM, gl::INVALID_ENUM);
    assert_eq!(codes::GL_INVALID_VALUE, gl::INVALID_VALUE);
    assert_eq!(codes::GL_INVALID_OPERATION, gl::INVALID_OPERATION);
    assert_eq!(codes::GL_STACK_OVERFLOW, gl::STACK_OVERFLOW);
    assert_eq!(codes::GL_STACK_UNDERFLOW, gl::STACK_UNDERFLOW);
    assert_eq!(codes::GL_OUT_OF_MEMORY, gl::OUT_OF_MEMORY);
    assert_eq!(codes::GL_INVALID_FRAMEBUFFER_OPERATION, gl::INVALID_FRAMEBUFFER_OPERATION);
    assert_eq!(codes::GL_CONTEXT_LOST, gl::CONTEXT_LOST);
}

#[test]
fn driver_errors_are_named() {
    assert_eq!(check_gl_error(gl::NO_ERROR), None);
    let table = [
        (gl::INVALID_ENUM, "INVALID_ENUM"),
        (gl::INVALID_VALUE, "INVALID_VALUE"),
        (gl::INVALID_OPERATION, "INVALID_OPERATION"),
        (gl::STACK_OVERFLOW, "STACK_OVERFLOW"),
        (gl::STACK_UNDERFLOW, "STACK_UNDERFLOW"),
        (gl::OUT_OF_MEMORY, "OUT_OF_MEMORY"),
        (gl::INVALID_FRAMEBUFFER_OPERATION, "INVALID_FRAMEBUFFER_OPERATION"),
        (gl::CONTEXT_LOST, "CONTEXT_LOST"),
        (0x1234, "UNKNOWN"),
    ];
    for (code, name) in table.iter() {
        assert_eq!(check_gl_error(*code), Some((*code, *name)));
    }
}
