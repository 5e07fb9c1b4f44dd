//! Linking two compiled shaders: create the program, attach the vertex and
//! then the fragment shader, link, ask whether that worked, and fetch the
//! log only when it did not.

use vstd::prelude::*;
use vstd::pervasive::unreached;
use crate::protocol::{GlCall, Reply, ShaderError, Step, GL_TRUE};

verus! {

/// Where the linking of one program stands. Each variant is named after the
/// call that was issued last and whose answer is awaited.
#[derive(Clone, Copy, Debug, PartialEq, Eq)]
pub enum Linkage {
    /// `CreateProgram` was issued.
    Creating { vertex: u32, fragment: u32 },
    /// `AttachShader` was issued for the vertex shader.
    AttachingVertex { program: u32, fragment: u32 },
    /// `AttachShader` was issued for the fragment shader.
    AttachingFragment { program: u32 },
    /// `LinkProgram` was issued.
    Linking { program: u32 },
    /// `GetLinkStatus` was issued.
    Checking { program: u32 },
    /// The link failed and `GetProgramLog` was issued.
    Diagnosing { program: u32 },
}

/// How a linkage ends: with the program object's handle, or with
/// `ShaderError::Link`.
pub type Linked = Result<u32, ShaderError>;

impl Linkage {
    /// Whether `reply` is of the kind that answers the call awaited here.
    /// The context names no program object zero, so a zero handle is no
    /// answer to `CreateProgram`.
    pub open spec fn expects(self, reply: Reply) -> bool {
        match self {
            Linkage::Creating { .. } => reply is Handle && reply->Handle_0 != 0,
            Linkage::AttachingVertex { .. } => reply is Done,
            Linkage::AttachingFragment { .. } => reply is Done,
            Linkage::Linking { .. } => reply is Done,
            Linkage::Checking { .. } => reply is Status,
            Linkage::Diagnosing { .. } => reply is Log,
        }
    }

    /// The program object, once it has been created.
    pub open spec fn program(self) -> Option<u32> {
        match self {
            Linkage::Creating { .. } => None,
            Linkage::AttachingVertex { program, .. } => Some(program),
            Linkage::AttachingFragment { program } => Some(program),
            Linkage::Linking { program } => Some(program),
            Linkage::Checking { program } => Some(program),
            Linkage::Diagnosing { program } => Some(program),
        }
    }

    /// The move made on `reply`. A status other than `GL_TRUE` is a failure,
    /// and only then is the log asked for; the error carries that log as it
    /// came.
    pub open spec fn step(self, reply: Reply) -> Step<Linkage, GlCall, Linked> {
        match self {
            Linkage::Creating { vertex, fragment } => Step::Next(
                Linkage::AttachingVertex { program: reply->Handle_0, fragment },
                GlCall::AttachShader { program: reply->Handle_0, shader: vertex },
            ),
            Linkage::AttachingVertex { program, fragment } => Step::Next(
                Linkage::AttachingFragment { program },
                GlCall::AttachShader { program, shader: fragment },
            ),
            Linkage::AttachingFragment { program } => Step::Next(
                Linkage::Linking { program },
                GlCall::LinkProgram { program },
            ),
            Linkage::Linking { program } => Step::Next(
                Linkage::Checking { program },
                GlCall::GetLinkStatus { program },
            ),
            Linkage::Checking { program } => if reply->Status_0 == GL_TRUE {
                Step::Finished(Ok(program))
            } else {
                Step::Next(Linkage::Diagnosing { program }, GlCall::GetProgramLog { program })
            },
            Linkage::Diagnosing { program } => Step::Finished(
                Err(ShaderError::Link { log: reply->Log_0 }),
            ),
        }
    }

    /// Tells whether `reply` may be handed to `advance` in this state.
    pub fn accepts(&self, reply: &Reply) -> (ok: bool)
        ensures
            ok == self.expects(*reply),
    {
        match self {
            Linkage::Creating { .. } => match reply {
                Reply::Handle(program) => *program != 0,
                _ => false,
            },
            Linkage::AttachingVertex { .. } => matches!(reply, Reply::Done),
            Linkage::AttachingFragment { .. } => matches!(reply, Reply::Done),
            Linkage::Linking { .. } => matches!(reply, Reply::Done),
            Linkage::Checking { .. } => matches!(reply, Reply::Status(_)),
            Linkage::Diagnosing { .. } => matches!(reply, Reply::Log(_)),
        }
    }

    /// Takes the answer to the call issued last and decides what follows.
    pub fn advance(self, reply: Reply) -> (out: Step<Linkage, GlCall, Linked>)
        requires
            self.expects(reply),
        ensures
            out == self.step(reply),
    {
        match self {
            Linkage::Creating { vertex, fragment } => match reply {
                Reply::Handle(program) => Step::Next(
                    Linkage::AttachingVertex { program, fragment },
                    GlCall::AttachShader { program, shader: vertex },
                ),
                _ => unreached(),
            },
            Linkage::AttachingVertex { program, fragment } => Step::Next(
                Linkage::AttachingFragment { program },
                GlCall::AttachShader { program, shader: fragment },
            ),
            Linkage::AttachingFragment { program } => Step::Next(
                Linkage::Linking { program },
                GlCall::LinkProgram { program },
            ),
            Linkage::Linking { program } => Step::Next(
                Linkage::Checking { program },
                GlCall::GetLinkStatus { program },
            ),
            Linkage::Checking { program } => match reply {
                Reply::Status(status) => if status == GL_TRUE {
                    Step::Finished(Ok(program))
                } else {
                    Step::Next(Linkage::Diagnosing { program }, GlCall::GetProgramLog { program })
                },
                _ => unreached(),
            },
            Linkage::Diagnosing { .. } => match reply {
                Reply::Log(log) => Step::Finished(Err(ShaderError::Link { log })),
                _ => unreached(),
            },
        }
    }
}

} // verus!
