//! The vocabulary shared by the shader builder and the code that owns the
//! graphics context: the calls the builder asks for and the answers it takes.

use vstd::prelude::*;

verus! {

/// The value a status query reports for a successful compile or link.
pub const GL_TRUE: i32 = 1;

/// The two programmable stages a shader program is linked from.
#[derive(Clone, Copy, Debug, PartialEq, Eq, Structural)]
pub enum ShaderStage {
    Vertex,
    Fragment,
}

/// One call to the graphics context. Handles are the context's own names for
/// shader and program objects.
#[derive(Debug, PartialEq, Eq)]
pub enum GlCall {
    /// Create an empty shader object for `stage`; answered by `Reply::Handle`.
    CreateShader { stage: ShaderStage },
    /// Replace the source text of `shader`; answered by `Reply::Done`.
    ShaderSource { shader: u32, source: String },
    /// Compile `shader`; answered by `Reply::Done`.
    CompileShader { shader: u32 },
    /// Query the compile status of `shader`; answered by `Reply::Status`.
    GetCompileStatus { shader: u32 },
    /// Fetch the diagnostic log of `shader`; answered by `Reply::Log`.
    GetShaderLog { shader: u32 },
    /// Create an empty program object; answered by `Reply::Handle`.
    CreateProgram,
    /// Attach `shader` to `program`; answered by `Reply::Done`.
    AttachShader { program: u32, shader: u32 },
    /// Link `program`; answered by `Reply::Done`.
    LinkProgram { program: u32 },
    /// Query the link status of `program`; answered by `Reply::Status`.
    GetLinkStatus { program: u32 },
    /// Fetch the diagnostic log of `program`; answered by `Reply::Log`.
    GetProgramLog { program: u32 },
    /// Make `program` the active pipeline; answered by `Reply::Done`.
    UseProgram { program: u32 },
    /// Delete `shader`; answered by `Reply::Done`.
    DeleteShader { shader: u32 },
    /// Delete `program`; answered by `Reply::Done`.
    DeleteProgram { program: u32 },
}

/// What the builder asks its driver to do next.
#[derive(Debug, PartialEq, Eq)]
pub enum Request {
    /// Read the whole file at `path` as text; answered by `Reply::File`.
    ReadFile { path: String },
    /// Make one call to the graphics context.
    Gl(GlCall),
}

/// The driver's answer to the request it was last given.
#[derive(Debug, PartialEq, Eq)]
pub enum Reply {
    /// The text of the file, or `None` when it could not be read.
    File(Option<String>),
    /// The call returned nothing.
    Done,
    /// The name of the object that was created.
    Handle(u32),
    /// The value of the status that was queried.
    Status(i32),
    /// The diagnostic log, as the context reported it.
    Log(String),
}

/// Why no shader program could be built.
#[derive(Debug, PartialEq, Eq)]
pub enum ShaderError {
    /// The source file of `stage` could not be read.
    Io { stage: ShaderStage },
    /// The shader of `stage` did not compile; `log` is the context's diagnostic.
    Compile { stage: ShaderStage, log: String },
    /// The program did not link; `log` is the context's diagnostic.
    Link { log: String },
}

impl ShaderError {
    /// What the user is shown: for a file, which of the two could not be
    /// read; for a compile or link error, the context's log and nothing else.
    pub open spec fn spec_message(self) -> Seq<char> {
        match self {
            ShaderError::Io { stage: ShaderStage::Vertex } => "Could not read vertex path"@,
            ShaderError::Io { stage: ShaderStage::Fragment } => "Could not read fragment path"@,
            ShaderError::Compile { log, .. } => log@,
            ShaderError::Link { log } => log@,
        }
    }

    /// The text of this error for the user.
    pub fn message(&self) -> (text: String)
        ensures
            text@ == self.spec_message(),
    {
        match self {
            ShaderError::Io { stage: ShaderStage::Vertex } => "Could not read vertex path".to_owned(),
            ShaderError::Io { stage: ShaderStage::Fragment } => {
                "Could not read fragment path".to_owned()
            },
            ShaderError::Compile { log, .. } => log.clone(),
            ShaderError::Link { log } => log.clone(),
        }
    }
}

/// One move of a builder: either it goes on, in state `S` and asking for `C`,
/// or it has finished with `R`.
#[derive(Debug, PartialEq, Eq)]
pub enum Step<S, C, R> {
    Next(S, C),
    Finished(R),
}

} // verus!
