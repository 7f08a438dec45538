use vstd::prelude::*;

use crate::codes::{GL_FRAGMENT_SHADER, GL_GEOMETRY_SHADER, GL_STATUS_TRUE, GL_VERTEX_SHADER};
use crate::command::GlCall;

verus! {

/// The pipeline stage a shader is compiled for.
#[derive(Debug, Clone, Copy, PartialEq, Eq, Structural)]
pub enum ShaderType {
    Fragment,
    Geometry,
    Vertex,
}

impl ShaderType {
    pub open spec fn spec_code(self) -> u32 {
        match self {
            ShaderType::Fragment => GL_FRAGMENT_SHADER,
            ShaderType::Geometry => GL_GEOMETRY_SHADER,
            ShaderType::Vertex => GL_VERTEX_SHADER,
        }
    }

    /// The driver's enumerant for this stage.
    pub fn code(self) -> (r: u32)
        ensures
            r == self.spec_code(),
    {
        match self {
            ShaderType::Fragment => GL_FRAGMENT_SHADER,
            ShaderType::Geometry => GL_GEOMETRY_SHADER,
            ShaderType::Vertex => GL_VERTEX_SHADER,
        }
    }

    /// The stage named by a file extension, compared without regard to ASCII
    /// case: `fs` is the fragment stage and `vs` the vertex stage. Any other
    /// extension is an error that names it in lower case.
    pub fn from_extension(extension: &str) -> (r: Result<ShaderType, String>)
        ensures
            is_stage_result(r, ascii_lowercase(extension@)),
    {
        let lower = to_ascii_lowercase(extension);
        let fs = "fs".to_owned();
        let vs = "vs".to_owned();
        proof {
            reveal_strlit("fs");
            reveal_strlit("vs");
        }
        if lower == fs {
            Ok(ShaderType::Fragment)
        } else if lower == vs {
            Ok(ShaderType::Vertex)
        } else {
            let mut message = "cannot determine ShaderType from the file extension: ".to_owned();
            message.append(lower.as_str());
            Err(message)
        }
    }
}

/// The driver's enumerants for shader stages.
pub open spec fn shader_type_codes() -> Set<u32> {
    set![GL_FRAGMENT_SHADER, GL_GEOMETRY_SHADER, GL_VERTEX_SHADER]
}

/// Every stage maps into the stage enumerants, and no two stages share one.
pub proof fn lemma_shader_type_codes(a: ShaderType, b: ShaderType)
    ensures
        shader_type_codes().contains(a.spec_code()),
        a.spec_code() == b.spec_code() <==> a == b,
{
}

pub open spec fn ascii_lowercase_char(c: char) -> char {
    if 'A' <= c && c <= 'Z' {
        ((c as u32) + 32) as char
    } else {
        c
    }
}

pub open spec fn ascii_lowercase(s: Seq<char>) -> Seq<char> {
    s.map_values(|c: char| ascii_lowercase_char(c))
}

/// The stage a lower-case extension names, if any.
pub open spec fn stage_of_extension(extension: Seq<char>) -> Option<ShaderType> {
    if extension == "fs"@ {
        Some(ShaderType::Fragment)
    } else if extension == "vs"@ {
        Some(ShaderType::Vertex)
    } else {
        None
    }
}

pub open spec fn stage_error(extension: Seq<char>) -> Seq<char> {
    "cannot determine ShaderType from the file extension: "@ + extension
}

/// `r` is the outcome of choosing a stage by the lower-case `extension`.
pub open spec fn is_stage_result(r: Result<ShaderType, String>, extension: Seq<char>) -> bool {
    match stage_of_extension(extension) {
        Some(kind) => r == Ok::<ShaderType, String>(kind),
        None => r is Err && r->Err_0@ == stage_error(extension),
    }
}

/// A stage chosen by extension: `vs` in any ASCII case gives the vertex stage,
/// `fs` the fragment stage, and any other extension (`glsl`, or none) an error
/// that names it.
pub proof fn lemma_stage_by_extension(r: Result<ShaderType, String>, extension: Seq<char>)
    requires
        is_stage_result(r, ascii_lowercase(extension)),
    ensures
        ascii_lowercase(extension) == "vs"@ ==> r == Ok::<ShaderType, String>(ShaderType::Vertex),
        ascii_lowercase(extension) == "fs"@ ==> r == Ok::<ShaderType, String>(ShaderType::Fragment),
        ascii_lowercase(extension) != "vs"@ && ascii_lowercase(extension) != "fs"@ ==> r is Err
            && r->Err_0@ == stage_error(ascii_lowercase(extension)),
{
    reveal_strlit("vs");
    reveal_strlit("fs");
    assert("vs"@[0] != "fs"@[0]);
}

/// Relies on `str::to_ascii_lowercase`: ASCII upper-case letters become lower
/// case, every other character stays.
#[verifier::external_body]
fn to_ascii_lowercase(s: &str) -> (r: String)
    ensures
        r@ == ascii_lowercase(s@),
{
    s.to_ascii_lowercase()
}

/// What `Path::extension` gives for a path: the part of its file name after
/// the last `.`, if there is one.
pub uninterp spec fn path_extension(path: Seq<char>) -> Option<Seq<char>>;

/// The extension a shader's stage is chosen by: that of `path`, or the empty
/// string where it has none.
pub open spec fn shader_extension(path: Seq<char>) -> Seq<char> {
    match path_extension(path) {
        Some(e) => e,
        None => Seq::empty(),
    }
}

/// Relies on `Path::extension` (and `OsStr::to_str`, which cannot fail on
/// text that came from a `str`) for the extension of a path.
#[verifier::external_body]
fn extension_of(path: &str) -> (r: Option<String>)
    ensures
        r is Some <==> path_extension(path@) is Some,
        r is Some ==> path_extension(path@) == Some(r->Some_0@),
{
    std::path::Path::new(path).extension().and_then(|e| e.to_str()).map(|e| e.to_owned())
}

/// A shader object of the driver, compiled for one stage and owned by this
/// value: it is not `Clone`, and `release` consumes it.
pub struct Shader {
    id: u32,
    kind: ShaderType,
}

impl Shader {
    pub closed spec fn spec_id(&self) -> u32 {
        self.id
    }

    pub closed spec fn spec_kind(&self) -> ShaderType {
        self.kind
    }

    /// Decides the outcome of compiling the shader object `id` (from
    /// `glCreateShader` with `kind`'s enumerant): the shader where the
    /// driver's `COMPILE_STATUS` is true, else the driver's info log. On
    /// failure the object is the caller's to delete.
    pub fn new(id: u32, kind: ShaderType, compile_status: i32, info_log: String) -> (r: Result<
        Shader,
        String,
    >)
        ensures
            compile_status == GL_STATUS_TRUE <==> r is Ok,
            r is Ok ==> r->Ok_0.spec_id() == id && r->Ok_0.spec_kind() == kind,
            r is Err ==> r->Err_0@ == info_log@,
    {
        if compile_status == GL_STATUS_TRUE {
            Ok(Shader { id, kind })
        } else {
            Err(info_log)
        }
    }

    /// The stage a shader file is compiled for, chosen by its extension as
    /// `ShaderType::from_extension` does; a path without one is an error.
    pub fn stage_from_path(path: &str) -> (r: Result<ShaderType, String>)
        ensures
            is_stage_result(r, ascii_lowercase(shader_extension(path@))),
    {
        match extension_of(path) {
            Some(extension) => ShaderType::from_extension(extension.as_str()),
            None => {
                proof {
                    reveal_strlit("");
                    assert(""@ =~= Seq::<char>::empty());
                }
                ShaderType::from_extension("")
            },
        }
    }

    /// The driver's name of this shader.
    pub fn get_id(&self) -> (r: u32)
        ensures
            r == self.spec_id(),
    {
        self.id
    }

    /// The stage this shader was compiled for.
    pub fn kind(&self) -> (r: ShaderType)
        ensures
            r == self.spec_kind(),
    {
        self.kind
    }

    /// Gives up ownership: the call deletes exactly the name this shader held.
    pub fn release(self) -> (r: GlCall)
        ensures
            r == (GlCall::DeleteShader { shader: self.spec_id() }),
    {
        GlCall::DeleteShader { shader: self.id }
    }
}

} // verus!
