//! A linked shader program and the builder that produces one from two
//! source files. The builder makes no call itself: it says which file to
//! read or which call to make next, takes the answer, and decides again.

use vstd::prelude::*;
use vstd::pervasive::unreached;
use crate::compile::Compilation;
use crate::link::Linkage;
use crate::protocol::{GlCall, Reply, Request, ShaderError, ShaderStage, Step};

verus! {

/// A linked program object of the graphics context. The only way to obtain
/// one is to run a `ShaderBuild` to its end, and there is no way to copy it.
#[derive(Debug)]
pub struct Shader {
    program: u32,
}

/// Where the building of a shader program stands.
#[derive(Debug, PartialEq, Eq)]
pub enum BuildPhase {
    /// `ReadFile` was issued for the vertex source.
    ReadingVertex { fragment_path: String },
    /// `ReadFile` was issued for the fragment source.
    ReadingFragment { vertex_source: String },
    /// The vertex shader is being compiled.
    CompilingVertex { job: Compilation, fragment_source: String },
    /// The fragment shader is being compiled.
    CompilingFragment { job: Compilation, vertex: u32 },
    /// The program is being linked.
    Linking { linkage: Linkage, vertex: u32, fragment: u32 },
    /// The program is linked and `DeleteShader` was issued for the fragment shader.
    DeletingFragment { program: u32, vertex: u32 },
    /// `DeleteShader` was issued for the vertex shader.
    DeletingVertex { program: u32 },
}

/// How a build ends, by the program's handle.
pub type Built = Result<u32, ShaderError>;

/// A build in progress. Its phase is read through the view.
#[derive(Debug)]
pub struct ShaderBuild {
    phase: BuildPhase,
}

impl BuildPhase {
    /// The phases a build can be in: each job works on the stage and the
    /// shader objects of its phase, and a program object is never zero.
    pub open spec fn wf(self) -> bool {
        match self {
            BuildPhase::ReadingVertex { .. } => true,
            BuildPhase::ReadingFragment { .. } => true,
            BuildPhase::CompilingVertex { job, .. } => job.stage() == ShaderStage::Vertex,
            BuildPhase::CompilingFragment { job, .. } => job.stage() == ShaderStage::Fragment,
            BuildPhase::Linking { linkage, vertex, fragment } => {
                &&& linkage.program() != Some(0u32)
                &&& linkage matches Linkage::Creating { vertex: v, fragment: f } ==> v == vertex
                    && f == fragment
                &&& linkage matches Linkage::AttachingVertex { fragment: f, .. } ==> f == fragment
            },
            BuildPhase::DeletingFragment { program, .. } => program != 0,
            BuildPhase::DeletingVertex { program } => program != 0,
        }
    }

    /// Whether `reply` is of the kind that answers the request awaited here.
    pub open spec fn expects(self, reply: Reply) -> bool {
        match self {
            BuildPhase::ReadingVertex { .. } => reply is File,
            BuildPhase::ReadingFragment { .. } => reply is File,
            BuildPhase::CompilingVertex { job, .. } => job.expects(reply),
            BuildPhase::CompilingFragment { job, .. } => job.expects(reply),
            BuildPhase::Linking { linkage, .. } => linkage.expects(reply),
            BuildPhase::DeletingFragment { .. } => reply is Done,
            BuildPhase::DeletingVertex { .. } => reply is Done,
        }
    }

    /// The move made on `reply`: read the vertex file, then the fragment
    /// file; compile the vertex shader, then the fragment shader; link;
    /// delete the fragment shader, then the vertex shader. The first file
    /// that cannot be read, or the first job that fails, ends the build with
    /// its error and nothing more is asked for.
    pub open spec fn step(self, reply: Reply) -> Step<BuildPhase, Request, Built> {
        match self {
            BuildPhase::ReadingVertex { fragment_path } => match reply->File_0 {
                Some(vertex_source) => Step::Next(
                    BuildPhase::ReadingFragment { vertex_source },
                    Request::ReadFile { path: fragment_path },
                ),
                None => Step::Finished(Err(ShaderError::Io { stage: ShaderStage::Vertex })),
            },
            BuildPhase::ReadingFragment { vertex_source } => match reply->File_0 {
                Some(fragment_source) => Step::Next(
                    BuildPhase::CompilingVertex {
                        job: Compilation::Creating {
                            stage: ShaderStage::Vertex,
                            source: vertex_source,
                        },
                        fragment_source,
                    },
                    Request::Gl(GlCall::CreateShader { stage: ShaderStage::Vertex }),
                ),
                None => Step::Finished(Err(ShaderError::Io { stage: ShaderStage::Fragment })),
            },
            BuildPhase::CompilingVertex { job, fragment_source } => match job.step(reply) {
                Step::Next(job, call) => Step::Next(
                    BuildPhase::CompilingVertex { job, fragment_source },
                    Request::Gl(call),
                ),
                Step::Finished(Ok(vertex)) => Step::Next(
                    BuildPhase::CompilingFragment {
                        job: Compilation::Creating {
                            stage: ShaderStage::Fragment,
                            source: fragment_source,
                        },
                        vertex,
                    },
                    Request::Gl(GlCall::CreateShader { stage: ShaderStage::Fragment }),
                ),
                Step::Finished(Err(error)) => Step::Finished(Err(error)),
            },
            BuildPhase::CompilingFragment { job, vertex } => match job.step(reply) {
                Step::Next(job, call) => Step::Next(
                    BuildPhase::CompilingFragment { job, vertex },
                    Request::Gl(call),
                ),
                Step::Finished(Ok(fragment)) => Step::Next(
                    BuildPhase::Linking {
                        linkage: Linkage::Creating { vertex, fragment },
                        vertex,
                        fragment,
                    },
                    Request::Gl(GlCall::CreateProgram),
                ),
                Step::Finished(Err(error)) => Step::Finished(Err(error)),
            },
            BuildPhase::Linking { linkage, vertex, fragment } => match linkage.step(reply) {
                Step::Next(linkage, call) => Step::Next(
                    BuildPhase::Linking { linkage, vertex, fragment },
                    Request::Gl(call),
                ),
                Step::Finished(Ok(program)) => Step::Next(
                    BuildPhase::DeletingFragment { program, vertex },
                    Request::Gl(GlCall::DeleteShader { shader: fragment }),
                ),
                Step::Finished(Err(error)) => Step::Finished(Err(error)),
            },
            BuildPhase::DeletingFragment { program, vertex } => Step::Next(
                BuildPhase::DeletingVertex { program },
                Request::Gl(GlCall::DeleteShader { shader: vertex }),
            ),
            BuildPhase::DeletingVertex { program } => Step::Finished(Ok(program)),
        }
    }
}

impl View for Shader {
    type V = u32;

    /// The handle of the program object.
    closed spec fn view(&self) -> u32 {
        self.program
    }
}

impl View for ShaderBuild {
    type V = BuildPhase;

    closed spec fn view(&self) -> BuildPhase {
        self.phase
    }
}

/// A move of the exec builder, with the build and the program each taken by
/// its view.
pub open spec fn outline(step: Step<ShaderBuild, Request, Result<Shader, ShaderError>>) -> Step<
    BuildPhase,
    Request,
    Built,
> {
    match step {
        Step::Next(build, request) => Step::Next(build@, request),
        Step::Finished(Ok(shader)) => Step::Finished(Ok(shader@)),
        Step::Finished(Err(error)) => Step::Finished(Err(error)),
    }
}

impl Shader {
    #[verifier::type_invariant]
    spec fn nonzero(self) -> bool {
        self.program != 0
    }

    /// Starts building a program from the vertex source file at `vertex` and
    /// the fragment source file at `fragment`. The request to serve first,
    /// reading the vertex file, is returned with the build.
    pub fn from_source(vertex: &str, fragment: &str) -> (out: (ShaderBuild, Request))
        ensures
            out.0@ matches BuildPhase::ReadingVertex { fragment_path }
                && fragment_path@ == fragment@,
            out.1 matches Request::ReadFile { path } && path@ == vertex@,
    {
        let phase = BuildPhase::ReadingVertex { fragment_path: fragment.to_owned() };
        (ShaderBuild { phase }, Request::ReadFile { path: vertex.to_owned() })
    }

    /// Starts compiling `src` as a shader of `stage`. The call to make
    /// first, creating the shader object, is returned with the job.
    pub fn compile_shader(src: &str, stage: ShaderStage) -> (out: (Compilation, GlCall))
        ensures
            out.0 matches Compilation::Creating { stage: s, source } && s == stage
                && source@ == src@,
            out.1 == (GlCall::CreateShader { stage }),
    {
        (Compilation::Creating { stage, source: src.to_owned() }, GlCall::CreateShader { stage })
    }

    /// Starts linking the shader objects `vs` and `fs`. The call to make
    /// first, creating the program object, is returned with the job.
    pub fn link_program(vs: u32, fs: u32) -> (out: (Linkage, GlCall))
        ensures
            out.0 == (Linkage::Creating { vertex: vs, fragment: fs }),
            out.1 == GlCall::CreateProgram,
    {
        (Linkage::Creating { vertex: vs, fragment: fs }, GlCall::CreateProgram)
    }

    /// The handle of the program object, which is never zero.
    pub fn program(&self) -> (handle: u32)
        ensures
            handle == self@,
            handle != 0,
    {
        proof {
            use_type_invariant(self);
        }
        self.program
    }

    /// The call that makes this program the active pipeline.
    pub fn gl_use(&self) -> (call: GlCall)
        ensures
            call == (GlCall::UseProgram { program: self@ }),
    {
        GlCall::UseProgram { program: self.program }
    }

    /// Gives the program up: the call that deletes the program object.
    pub fn release(self) -> (call: GlCall)
        ensures
            call == (GlCall::DeleteProgram { program: self@ }),
    {
        GlCall::DeleteProgram { program: self.program }
    }
}

impl ShaderBuild {
    #[verifier::type_invariant]
    spec fn valid(self) -> bool {
        self.phase.wf()
    }

    /// Tells whether `reply` may be handed to `advance` in this state.
    pub fn accepts(&self, reply: &Reply) -> (ok: bool)
        ensures
            ok == self@.expects(*reply),
    {
        match &self.phase {
            BuildPhase::ReadingVertex { .. } => matches!(reply, Reply::File(_)),
            BuildPhase::ReadingFragment { .. } => matches!(reply, Reply::File(_)),
            BuildPhase::CompilingVertex { job, .. } => job.accepts(reply),
            BuildPhase::CompilingFragment { job, .. } => job.accepts(reply),
            BuildPhase::Linking { linkage, .. } => linkage.accepts(reply),
            BuildPhase::DeletingFragment { .. } => matches!(reply, Reply::Done),
            BuildPhase::DeletingVertex { .. } => matches!(reply, Reply::Done),
        }
    }

    /// Takes the answer to the request issued last and decides what follows:
    /// the next request, the finished program, or the error that ends the
    /// build.
    pub fn advance(self, reply: Reply) -> (out: Step<
        ShaderBuild,
        Request,
        Result<Shader, ShaderError>,
    >)
        requires
            self@.expects(reply),
        ensures
            outline(out) == self@.step(reply),
    {
        proof {
            use_type_invariant(&self);
        }
        match self.phase {
            BuildPhase::ReadingVertex { fragment_path } => match reply {
                Reply::File(Some(vertex_source)) => Step::Next(
                    ShaderBuild { phase: BuildPhase::ReadingFragment { vertex_source } },
                    Request::ReadFile { path: fragment_path },
                ),
                Reply::File(None) => Step::Finished(
                    Err(ShaderError::Io { stage: ShaderStage::Vertex }),
                ),
                _ => unreached(),
            },
            BuildPhase::ReadingFragment { vertex_source } => match reply {
                Reply::File(Some(fragment_source)) => {
                    let job = Compilation::Creating {
                        stage: ShaderStage::Vertex,
                        source: vertex_source,
                    };
                    Step::Next(
                        ShaderBuild { phase: BuildPhase::CompilingVertex { job, fragment_source } },
                        Request::Gl(GlCall::CreateShader { stage: ShaderStage::Vertex }),
                    )
                },
                Reply::File(None) => Step::Finished(
                    Err(ShaderError::Io { stage: ShaderStage::Fragment }),
                ),
                _ => unreached(),
            },
            BuildPhase::CompilingVertex { job, fragment_source } => match job.advance(reply) {
                Step::Next(job, call) => Step::Next(
                    ShaderBuild { phase: BuildPhase::CompilingVertex { job, fragment_source } },
                    Request::Gl(call),
                ),
                Step::Finished(Ok(vertex)) => {
                    let job = Compilation::Creating {
                        stage: ShaderStage::Fragment,
                        source: fragment_source,
                    };
                    Step::Next(
                        ShaderBuild { phase: BuildPhase::CompilingFragment { job, vertex } },
                        Request::Gl(GlCall::CreateShader { stage: ShaderStage::Fragment }),
                    )
                },
                Step::Finished(Err(error)) => Step::Finished(Err(error)),
            },
            BuildPhase::CompilingFragment { job, vertex } => match job.advance(reply) {
                Step::Next(job, call) => Step::Next(
                    ShaderBuild { phase: BuildPhase::CompilingFragment { job, vertex } },
                    Request::Gl(call),
                ),
                Step::Finished(Ok(fragment)) => {
                    let linkage = Linkage::Creating { vertex, fragment };
                    Step::Next(
                        ShaderBuild { phase: BuildPhase::Linking { linkage, vertex, fragment } },
                        Request::Gl(GlCall::CreateProgram),
                    )
                },
                Step::Finished(Err(error)) => Step::Finished(Err(error)),
            },
            BuildPhase::Linking { linkage, vertex, fragment } => match linkage.advance(reply) {
                Step::Next(linkage, call) => Step::Next(
                    ShaderBuild { phase: BuildPhase::Linking { linkage, vertex, fragment } },
                    Request::Gl(call),
                ),
                Step::Finished(Ok(program)) => Step::Next(
                    ShaderBuild { phase: BuildPhase::DeletingFragment { program, vertex } },
                    Request::Gl(GlCall::DeleteShader { shader: fragment }),
                ),
                Step::Finished(Err(error)) => Step::Finished(Err(error)),
            },
            BuildPhase::DeletingFragment { program, vertex } => Step::Next(
                ShaderBuild { phase: BuildPhase::DeletingVertex { program } },
                Request::Gl(GlCall::DeleteShader { shader: vertex }),
            ),
            BuildPhase::DeletingVertex { program } => Step::Finished(Ok(Shader { program })),
        }
    }
}

} // verus!
