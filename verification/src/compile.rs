//! Compiling one shader: create the object, hand it the source, compile,
//! ask whether that worked, and fetch the log only when it did not.

use vstd::prelude::*;
use vstd::pervasive::unreached;
use crate::protocol::{GlCall, Reply, ShaderError, ShaderStage, Step, GL_TRUE};

verus! {

/// Where the compilation of one shader stands. Each variant is named after
/// the call that was issued last and whose answer is awaited.
#[derive(Debug, PartialEq, Eq)]
pub enum Compilation {
    /// `CreateShader` was issued; `source` waits for the new object.
    Creating { stage: ShaderStage, source: String },
    /// `ShaderSource` was issued.
    Sourcing { stage: ShaderStage, shader: u32 },
    /// `CompileShader` was issued.
    Compiling { stage: ShaderStage, shader: u32 },
    /// `GetCompileStatus` was issued.
    Checking { stage: ShaderStage, shader: u32 },
    /// The compile failed and `GetShaderLog` was issued.
    Diagnosing { stage: ShaderStage, shader: u32 },
}

/// How a compilation ends: with the shader object's handle, or with
/// `ShaderError::Compile`.
pub type Compiled = Result<u32, ShaderError>;

impl Compilation {
    /// The stage of the shader being compiled.
    pub open spec fn stage(self) -> ShaderStage {
        match self {
            Compilation::Creating { stage, .. } => stage,
            Compilation::Sourcing { stage, .. } => stage,
            Compilation::Compiling { stage, .. } => stage,
            Compilation::Checking { stage, .. } => stage,
            Compilation::Diagnosing { stage, .. } => stage,
        }
    }

    /// Whether `reply` is of the kind that answers the call awaited here.
    pub open spec fn expects(self, reply: Reply) -> bool {
        match self {
            Compilation::Creating { .. } => reply is Handle,
            Compilation::Sourcing { .. } => reply is Done,
            Compilation::Compiling { .. } => reply is Done,
            Compilation::Checking { .. } => reply is Status,
            Compilation::Diagnosing { .. } => reply is Log,
        }
    }

    /// The move made on `reply`. A status other than `GL_TRUE` is a failure,
    /// and only then is the log asked for; the error carries that log as it
    /// came.
    pub open spec fn step(self, reply: Reply) -> Step<Compilation, GlCall, Compiled> {
        match self {
            Compilation::Creating { stage, source } => Step::Next(
                Compilation::Sourcing { stage, shader: reply->Handle_0 },
                GlCall::ShaderSource { shader: reply->Handle_0, source },
            ),
            Compilation::Sourcing { stage, shader } => Step::Next(
                Compilation::Compiling { stage, shader },
                GlCall::CompileShader { shader },
            ),
            Compilation::Compiling { stage, shader } => Step::Next(
                Compilation::Checking { stage, shader },
                GlCall::GetCompileStatus { shader },
            ),
            Compilation::Checking { stage, shader } => if reply->Status_0 == GL_TRUE {
                Step::Finished(Ok(shader))
            } else {
                Step::Next(
                    Compilation::Diagnosing { stage, shader },
                    GlCall::GetShaderLog { shader },
                )
            },
            Compilation::Diagnosing { stage, shader } => Step::Finished(
                Err(ShaderError::Compile { stage, log: reply->Log_0 }),
            ),
        }
    }

    /// Tells whether `reply` may be handed to `advance` in this state.
    pub fn accepts(&self, reply: &Reply) -> (ok: bool)
        ensures
            ok == self.expects(*reply),
    {
        match self {
            Compilation::Creating { .. } => matches!(reply, Reply::Handle(_)),
            Compilation::Sourcing { .. } => matches!(reply, Reply::Done),
            Compilation::Compiling { .. } => matches!(reply, Reply::Done),
            Compilation::Checking { .. } => matches!(reply, Reply::Status(_)),
            Compilation::Diagnosing { .. } => matches!(reply, Reply::Log(_)),
        }
    }

    /// Takes the answer to the call issued last and decides what follows.
    pub fn advance(self, reply: Reply) -> (out: Step<Compilation, GlCall, Compiled>)
        requires
            self.expects(reply),
        ensures
            out == self.step(reply),
    {
        match self {
            Compilation::Creating { stage, source } => match reply {
                Reply::Handle(shader) => Step::Next(
                    Compilation::Sourcing { stage, shader },
                    GlCall::ShaderSource { shader, source },
                ),
                _ => unreached(),
            },
            Compilation::Sourcing { stage, shader } => Step::Next(
                Compilation::Compiling { stage, shader },
                GlCall::CompileShader { shader },
            ),
            Compilation::Compiling { stage, shader } => Step::Next(
                Compilation::Checking { stage, shader },
                GlCall::GetCompileStatus { shader },
            ),
            Compilation::Checking { stage, shader } => match reply {
                Reply::Status(status) => if status == GL_TRUE {
                    Step::Finished(Ok(shader))
                } else {
                    Step::Next(
                        Compilation::Diagnosing { stage, shader },
                        GlCall::GetShaderLog { shader },
                    )
                },
                _ => unreached(),
            },
            Compilation::Diagnosing { stage, shader: _ } => match reply {
                Reply::Log(log) => Step::Finished(Err(ShaderError::Compile { stage, log })),
                _ => unreached(),
            },
        }
    }
}

} // verus!
