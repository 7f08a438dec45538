use mini_engine::codes::{GL_FALSE, GL_TRUE, GL_TRIANGLES};
use mini_engine::{
    Buffer, BufferTarget, BufferUsage, GlCall, VertexArrayBuilder, VertexAttribute,
    VertexAttributeType,
};

fn vertex_buffer(id: u32) -> Buffer {
    Buffer::new(id, 15, 4, BufferTarget::ArrayBuffer, BufferUsage::StaticDraw).0
}

#[test]
fn empty_builder_enables_no_slot() {
    let buffer = vertex_buffer(7);
    let array = VertexArrayBuilder::new().build(3, &buffer);
    assert!(array.attributes().is_empty());
    let calls = array.setup();
    assert_eq!(
        calls,
        vec![
            GlCall::BindVertexArray { array: 3 },
            GlCall::BindBuffer { target: gl::ARRAY_BUFFER, buffer: 7 },
        ]
    );
    assert!(!calls.iter().any(|c| matches!(c, GlCall::EnableVertexAttribArray { .. })));
}

#[test]
fn attributes_take_slots_in_call_order() {
    let buffer = vertex_buffer(2);
    let array = VertexArrayBuilder::new()
        .attribute(4, VertexAttributeType::UnsignedByte, true, 16, 12)
        .attribute(1, VertexAttributeType::Int, false, 8, 0)
        .attribute(3, VertexAttributeType::Short, true, 10, 4)
        .build(9, &buffer);
    assert_eq!(
        array.attributes(),
        &[
            VertexAttribute {
                size: 4,
                kind: VertexAttributeType::UnsignedByte,
                normalised: true,
                stride: 16,
                offset: 12,
            },
            VertexAttribute {
                size: 1,
                kind: VertexAttributeType::Int,
                normalised: false,
                stride: 8,
                offset: 0,
            },
            VertexAttribute {
                size: 3,
                kind: VertexAttributeType::Short,
                normalised: true,
                stride: 10,
                offset: 4,
            },
        ][..]
    );
    let calls = array.setup();
    assert_eq!(calls.len(), 8);
    assert_eq!(calls[0], GlCall::BindVertexArray { array: 9 });
    assert_eq!(calls[1], GlCall::BindBuffer { target: gl::ARRAY_BUFFER, buffer: 2 });
    assert_eq!(calls[2], GlCall::EnableVertexAttribArray { index: 0 });
    assert_eq!(
        calls[3],
        GlCall::VertexAttribPointer {
            index: 0,
            components: 4,
            kind: gl::UNSIGNED_BYTE,
            normalized: GL_TRUE,
            stride: 16,
            offset: 12,
        }
    );
    assert_eq!(calls[4], GlCall::EnableVertexAttribArray { index: 1 });
    assert_eq!(
        calls[5],
        GlCall::VertexAttribPointer {
            index: 1,
            components: 1,
            kind: gl::INT,
            normalized: GL_FALSE,
            stride: 8,
            offset: 0,
        }
    );
    assert_eq!(calls[6], GlCall::EnableVertexAttribArray { index: 2 });
    assert_eq!(
        calls[7],
        GlCall::VertexAttribPointer {
            index: 2,
            components: 3,
            kind: gl::SHORT,
            normalized: GL_TRUE,
            stride: 10,
            offset: 4,
        }
    );
}

#[test]
fn triangle_layout_and_draw() {
    let float = std::mem::size_of::<f32>();
    let stride = 5 * float;
    let (buffer, upload) =
        Buffer::new(1, 15, float, BufferTarget::ArrayBuffer, BufferUsage::StaticDraw);
    assert_eq!(
        upload,
        vec![
            GlCall::BindBuffer { target: gl::ARRAY_BUFFER, buffer: 1 },
            GlCall::BufferData { target: gl::ARRAY_BUFFER, size: 60, usage: gl::STATIC_DRAW },
        ]
    );
    let array = VertexArrayBuilder::new()
        .attribute(2, VertexAttributeType::Float, false, stride, 0)
        .attribute(3, VertexAttributeType::Float, false, stride, 2 * float)
        .build(4, &buffer);
    assert_eq!(
        array.setup(),
        vec![
            GlCall::BindVertexArray { array: 4 },
            GlCall::BindBuffer { target: gl::ARRAY_BUFFER, buffer: 1 },
            GlCall::EnableVertexAttribArray { index: 0 },
            GlCall::VertexAttribPointer {
                index: 0,
                components: 2,
                kind: gl::FLOAT,
                normalized: gl::FALSE,
                stride: 20,
                offset: 0,
            },
            GlCall::EnableVertexAttribArray { index: 1 },
            GlCall::VertexAttribPointer {
                index: 1,
                components: 3,
                kind: gl::FLOAT,
                normalized: gl::FALSE,
                stride: 20,
                offset: 8,
            },
        ]
    );
    assert_eq!(
        array.draw(),
        vec![
            GlCall::BindVertexArray { array: 4 },
            GlCall::DrawArrays { mode: GL_TRIANGLES, first: 0, count: 3 },
        ]
    );
    assert_eq!(array.bind(), GlCall::BindVertexArray { array: 4 });
    assert_eq!(array.get_id(), 4);
    assert_eq!(array.release(), GlCall::DeleteVertexArray { array: 4 });
}
