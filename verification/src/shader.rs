//! Shader program handles, the outcome of compiling and linking, and the
//! uniform uploads addressed to a program.

use vstd::prelude::*;
use vstd::string::*;
use crate::glenum;
use crate::value::{Matrix4, UniformUpload, UniformValue, Vector3};

verus! {

/// The stage whose status is being checked.
#[derive(Clone, Copy, Debug, PartialEq, Eq, Structural)]
pub enum ShaderType {
    Vertex,
    Fragment,
    Program,
}

/// Why a shader program could not be built.
#[derive(Clone, Debug, PartialEq, Eq)]
pub enum ShaderError {
    Compile(String),
    Linking(String),
}

impl ShaderError {
    /// The text of the error.
    pub fn message(&self) -> (s: String)
        ensures
            s@ == match *self {
                ShaderError::Compile(e) => e@,
                ShaderError::Linking(e) => e@,
            },
    {
        match self {
            ShaderError::Compile(e) => e.clone(),
            ShaderError::Linking(e) => e.clone(),
        }
    }
}

/// Handle of a compiled and linked shader program. Copies share the program.
#[derive(Clone, Copy, Debug, PartialEq, Eq, Structural)]
pub struct Shader {
    pub id: u32,
}

/// The status word that decides for a stage: the link status for a program,
/// the compile status for a shader.
pub open spec fn deciding_status(type_: ShaderType, shader_iv: i32, program_iv: i32) -> i32 {
    match type_ {
        ShaderType::Program => program_iv,
        _ => shader_iv,
    }
}

/// The text of the error for a failed stage with the given info log.
pub open spec fn failure_text(type_: ShaderType, log: Seq<char>) -> Seq<char> {
    match type_ {
        ShaderType::Vertex => "Vertex shader compilation error: "@ + log,
        ShaderType::Fragment => "Fragment shader compilation error: "@ + log,
        ShaderType::Program => "Program linking error: '"@ + log + "'"@,
    }
}

impl Shader {
    /// Decides the outcome of building a program from the info logs of the
    /// stages that failed, in build order: the first failed stage gives the
    /// error, and with none the program `id` is the shader.
    pub fn new(
        vertex: Option<String>,
        fragment: Option<String>,
        program: Option<String>,
        id: u32,
    ) -> (r: Result<Shader, String>)
        ensures
            vertex is Some ==> r == Err::<Shader, String>(vertex.unwrap()),
            vertex is None && fragment is Some ==> r == Err::<Shader, String>(fragment.unwrap()),
            vertex is None && fragment is None && program is Some ==> r == Err::<Shader, String>(
                program.unwrap(),
            ),
            vertex is None && fragment is None && program is None ==> r == Ok::<Shader, String>(
                Shader { id },
            ),
    {
        if let Some(e) = vertex {
            return Err(e);
        }
        if let Some(e) = fragment {
            return Err(e);
        }
        if let Some(e) = program {
            return Err(e);
        }
        Ok(Shader { id })
    }

    /// The info log of a shader as an error, if its compile status is zero.
    pub fn check_shader_errors(success: i32, log: String) -> (r: Option<String>)
        ensures
            r == if success == 0 { Some(log) } else { None },
    {
        if success == 0 {
            Some(log)
        } else {
            None
        }
    }

    /// The info log of a program as an error, if its link status is zero.
    pub fn check_program_errors(success: i32, log: String) -> (r: Option<String>)
        ensures
            r == if success == 0 { Some(log) } else { None },
    {
        if success == 0 {
            Some(log)
        } else {
            None
        }
    }

    /// The room to reserve for an info log: the larger of the two status
    /// words.
    pub fn log_capacity(shader_iv: i32, program_iv: i32) -> (len: i32)
        ensures
            len >= shader_iv,
            len >= program_iv,
            len == shader_iv || len == program_iv,
    {
        if shader_iv >= program_iv {
            shader_iv
        } else {
            program_iv
        }
    }

    /// Whether the stage failed, so that its info log has to be fetched.
    pub fn stage_failed(type_: ShaderType, shader_iv: i32, program_iv: i32) -> (failed: bool)
        ensures
            failed == (deciding_status(type_, shader_iv, program_iv) != glenum::TRUE),
    {
        match type_ {
            ShaderType::Program => program_iv != glenum::TRUE,
            _ => shader_iv != glenum::TRUE,
        }
    }

    /// Judges a stage by its status words: success if the deciding status is
    /// true, else a compile error for a shader and a linking error for a
    /// program, each with the info log in its text.
    pub fn check_compiler_errors(
        type_: ShaderType,
        shader_iv: i32,
        program_iv: i32,
        log: &str,
    ) -> (r: Result<(), ShaderError>)
        ensures
            r is Ok <==> deciding_status(type_, shader_iv, program_iv) == glenum::TRUE,
            r is Err ==> (r->Err_0 is Linking <==> type_ == ShaderType::Program),
            r is Err ==> match r->Err_0 {
                ShaderError::Compile(e) => e@ == failure_text(type_, log@),
                ShaderError::Linking(e) => e@ == failure_text(type_, log@),
            },
    {
        match type_ {
            ShaderType::Vertex => {
                if shader_iv != glenum::TRUE {
                    let mut err = String::from_str("Vertex shader compilation error: ");
                    err.append(log);
                    return Err(ShaderError::Compile(err));
                }
            },
            ShaderType::Fragment => {
                if shader_iv != glenum::TRUE {
                    let mut err = String::from_str("Fragment shader compilation error: ");
                    err.append(log);
                    return Err(ShaderError::Compile(err));
                }
            },
            ShaderType::Program => {
                if program_iv != glenum::TRUE {
                    let mut err = String::from_str("Program linking error: '");
                    err.append(log);
                    err.append("'");
                    return Err(ShaderError::Linking(err));
                }
            },
        }
        Ok(())
    }

    fn upload(&self, name: &str, value: UniformValue) -> (u: UniformUpload)
        ensures
            u.program == self.id,
            u.name@ == name@,
            u.value == value,
    {
        UniformUpload { program: self.id, name: name.to_owned(), value }
    }

    /// The upload of an integer uniform to this program.
    pub fn set_int(self, name: &str, val: i32) -> (u: UniformUpload)
        ensures
            u.program == self.id,
            u.name@ == name@,
            u.value == UniformValue::Int(val),
    {
        self.upload(name, UniformValue::Int(val))
    }

    /// The upload of a scalar uniform, given as its 32-bit word.
    pub fn set_float(self, name: &str, val: u32) -> (u: UniformUpload)
        ensures
            u.program == self.id,
            u.name@ == name@,
            u.value == UniformValue::Float(val),
    {
        self.upload(name, UniformValue::Float(val))
    }

    /// The upload of a three-component uniform from its components.
    pub fn set_vec3(&self, name: &str, x: u32, y: u32, z: u32) -> (u: UniformUpload)
        ensures
            u.program == self.id,
            u.name@ == name@,
            u.value == UniformValue::Vector3(Vector3 { x, y, z }),
    {
        self.upload(name, UniformValue::Vector3(Vector3 { x, y, z }))
    }

    /// The upload of a three-component uniform.
    pub fn set_vector3(&self, name: &str, value: &Vector3) -> (u: UniformUpload)
        ensures
            u.program == self.id,
            u.name@ == name@,
            u.value == UniformValue::Vector3(*value),
    {
        self.upload(name, UniformValue::Vector3(*value))
    }

    /// The upload of a matrix uniform.
    pub fn set_mat4(&self, name: &str, mat: &Matrix4) -> (u: UniformUpload)
        ensures
            u.program == self.id,
            u.name@ == name@,
            u.value == UniformValue::Matrix4(*mat),
    {
        self.upload(name, UniformValue::Matrix4(*mat))
    }
}

} // verus!
