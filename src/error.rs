use vstd::prelude::*;

use crate::codes::{
    GL_CONTEXT_LOST,
    GL_INVALID_ENUM,
    GL_INVALID_FRAMEBUFFER_OPERATION,
    GL_INVALID_OPERATION,
    GL_INVALID_VALUE,
    GL_NO_ERROR,
    GL_OUT_OF_MEMORY,
    GL_STACK_OVERFLOW,
    GL_STACK_UNDERFLOW,
};

verus! {

/// The symbolic name of a driver error code; `UNKNOWN` for a code the driver
/// does not define.
pub open spec fn error_name(code: u32) -> Seq<char> {
    if code == GL_INVALID_ENUM {
        "INVALID_ENUM"@
    } else if code == GL_INVALID_VALUE {
        "INVALID_VALUE"@
    } else if code == GL_INVALID_OPERATION {
        "INVALID_OPERATION"@
    } else if code == GL_STACK_OVERFLOW {
        "STACK_OVERFLOW"@
    } else if code == GL_STACK_UNDERFLOW {
        "STACK_UNDERFLOW"@
    } else if code == GL_OUT_OF_MEMORY {
        "OUT_OF_MEMORY"@
    } else if code == GL_INVALID_FRAMEBUFFER_OPERATION {
        "INVALID_FRAMEBUFFER_OPERATION"@
    } else if code == GL_CONTEXT_LOST {
        "CONTEXT_LOST"@
    } else {
        "UNKNOWN"@
    }
}

/// Reads the code that `glGetError` returned: nothing where it is
/// `NO_ERROR`, else the code with its symbolic name.
pub fn check_gl_error(error: u32) -> (r: Option<(u32, &'static str)>)
    ensures
        r is None <==> error == GL_NO_ERROR,
        r is Some ==> r->Some_0.0 == error && r->Some_0.1@ == error_name(error),
{
    if error == GL_NO_ERROR {
        return None;
    }
    let message = if error == GL_INVALID_ENUM {
        "INVALID_ENUM"
    } else if error == GL_INVALID_VALUE {
        "INVALID_VALUE"
    } else if error == GL_INVALID_OPERATION {
        "INVALID_OPERATION"
    } else if error == GL_STACK_OVERFLOW {
        "STACK_OVERFLOW"
    } else if error == GL_STACK_UNDERFLOW {
        "STACK_UNDERFLOW"
    } else if error == GL_OUT_OF_MEMORY {
        "OUT_OF_MEMORY"
    } else if error == GL_INVALID_FRAMEBUFFER_OPERATION {
        "INVALID_FRAMEBUFFER_OPERATION"
    } else if error == GL_CONTEXT_LOST {
        "CONTEXT_LOST"
    } else {
        "UNKNOWN"
    };
    Some((error, message))
}

} // verus!
