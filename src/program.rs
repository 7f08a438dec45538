use vstd::prelude::*;

use crate::codes::GL_STATUS_TRUE;
use crate::command::GlCall;
use crate::shader::Shader;

verus! {

/// The calls that link `program` from `shaders`: attach each shader, in
/// order, then link.
pub open spec fn is_link_plan(calls: Seq<GlCall>, program: u32, shaders: Seq<u32>) -> bool {
    &&& calls.len() == shaders.len() + 1
    &&& forall|i: int|
        0 <= i < shaders.len() ==> #[trigger] calls[i] == (GlCall::AttachShader {
            program,
            shader: shaders[i],
        })
    &&& calls[shaders.len() as int] == GlCall::LinkProgram { program }
}

/// The names of `shaders`, in order.
pub open spec fn shader_ids(shaders: Seq<&Shader>) -> Seq<u32> {
    shaders.map_values(|s: &Shader| s.spec_id())
}

/// A program object of the driver, linked from shaders that it does not own,
/// and owned by this value: it is not `Clone`, and `release` consumes it.
pub struct Program {
    id: u32,
}

impl Program {
    pub closed spec fn spec_id(&self) -> u32 {
        self.id
    }

    /// The calls that link the program object `id` (from `glCreateProgram`)
    /// from `shaders`; `new` then takes the driver's `LINK_STATUS`.
    pub fn link(id: u32, shaders: &[&Shader]) -> (r: Vec<GlCall>)
        ensures
            is_link_plan(r@, id, shader_ids(shaders@)),
    {
        let mut calls: Vec<GlCall> = Vec::new();
        let n = shaders.len();
        let mut i: usize = 0;
        while i < n
            invariant
                n == shaders@.len(),
                i <= n,
                calls@.len() == i,
                forall|j: int|
                    0 <= j < i ==> #[trigger] calls@[j] == (GlCall::AttachShader {
                        program: id,
                        shader: shaders@[j].spec_id(),
                    }),
            decreases n - i,
        {
            calls.push(GlCall::AttachShader { program: id, shader: shaders[i].get_id() });
            i = i + 1;
        }
        calls.push(GlCall::LinkProgram { program: id });
        calls
    }

    /// Decides the outcome of linking the program object `id`: the program
    /// where the driver's `LINK_STATUS` is true, else the driver's info log.
    /// On failure the object is the caller's to delete.
    pub fn new(id: u32, link_status: i32, info_log: String) -> (r: Result<Program, String>)
        ensures
            link_status == GL_STATUS_TRUE <==> r is Ok,
            r is Ok ==> r->Ok_0.spec_id() == id,
            r is Err ==> r->Err_0@ == info_log@,
    {
        if link_status == GL_STATUS_TRUE {
            Ok(Program { id })
        } else {
            Err(info_log)
        }
    }

    /// The driver's name of this program.
    pub fn get_id(&self) -> (r: u32)
        ensures
            r == self.spec_id(),
    {
        self.id
    }

    /// Makes this the current program.
    pub fn bind(&self) -> (r: GlCall)
        ensures
            r == (GlCall::UseProgram { program: self.spec_id() }),
    {
        GlCall::UseProgram { program: self.id }
    }

    /// Gives up ownership: the call deletes exactly the name this program held.
    pub fn release(self) -> (r: GlCall)
        ensures
            r == (GlCall::DeleteProgram { program: self.spec_id() }),
    {
        GlCall::DeleteProgram { program: self.id }
    }
}

} // verus!
