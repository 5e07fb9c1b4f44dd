//! The scripts of the builders: for each way a compilation, a linkage or a
//! whole build can go, the exact requests it makes and the result it ends
//! with.

use vstd::prelude::*;
use crate::protocol::{GlCall, Reply, Request, ShaderError, ShaderStage, GL_TRUE};
use crate::run::{building, compiling, linking, run, Trace};

verus! {

/// A shader that compiles is created, given its source, compiled and
/// checked, in that order, and the job ends with the shader's handle. The
/// log is not asked for.
pub proof fn law_compile_succeeds(stage: ShaderStage, source: String, shader: u32)
    ensures
        compiling(
            stage,
            source,
            seq![Reply::Handle(shader), Reply::Done, Reply::Done, Reply::Status(GL_TRUE)],
        ) == (Trace {
            asked: seq![
                GlCall::CreateShader { stage },
                GlCall::ShaderSource { shader, source },
                GlCall::CompileShader { shader },
                GlCall::GetCompileStatus { shader },
            ],
            end: Some(Ok::<u32, ShaderError>(shader)),
        }),
{
    reveal_with_fuel(run, 5);
    let t = compiling(
        stage,
        source,
        seq![Reply::Handle(shader), Reply::Done, Reply::Done, Reply::Status(GL_TRUE)],
    );
    assert(t.asked =~= seq![
        GlCall::CreateShader { stage },
        GlCall::ShaderSource { shader, source },
        GlCall::CompileShader { shader },
        GlCall::GetCompileStatus { shader },
    ]);
}

/// A shader whose compile status is anything but `GL_TRUE` is rejected: the
/// log is fetched and the job ends with a compile error that names the stage
/// and carries the log exactly as the context gave it.
pub proof fn law_compile_fails(
    stage: ShaderStage,
    source: String,
    shader: u32,
    status: i32,
    log: String,
)
    requires
        status != GL_TRUE,
    ensures
        compiling(
            stage,
            source,
            seq![
                Reply::Handle(shader),
                Reply::Done,
                Reply::Done,
                Reply::Status(status),
                Reply::Log(log),
            ],
        ) == (Trace {
            asked: seq![
                GlCall::CreateShader { stage },
                GlCall::ShaderSource { shader, source },
                GlCall::CompileShader { shader },
                GlCall::GetCompileStatus { shader },
                GlCall::GetShaderLog { shader },
            ],
            end: Some(Err::<u32, ShaderError>(ShaderError::Compile { stage, log })),
        }),
{
    reveal_with_fuel(run, 6);
    let t = compiling(
        stage,
        source,
        seq![
            Reply::Handle(shader),
            Reply::Done,
            Reply::Done,
            Reply::Status(status),
            Reply::Log(log),
        ],
    );
    assert(t.asked =~= seq![
        GlCall::CreateShader { stage },
        GlCall::ShaderSource { shader, source },
        GlCall::CompileShader { shader },
        GlCall::GetCompileStatus { shader },
        GlCall::GetShaderLog { shader },
    ]);
}

/// A program that links is created, gets the vertex and then the fragment
/// shader attached, is linked and checked, and the job ends with the
/// program's handle. The log is not asked for.
pub proof fn law_link_succeeds(vertex: u32, fragment: u32, program: u32)
    requires
        program != 0,
    ensures
        linking(
            vertex,
            fragment,
            seq![
                Reply::Handle(program),
                Reply::Done,
                Reply::Done,
                Reply::Done,
                Reply::Status(GL_TRUE),
            ],
        ) == (Trace {
            asked: seq![
                GlCall::CreateProgram,
                GlCall::AttachShader { program, shader: vertex },
                GlCall::AttachShader { program, shader: fragment },
                GlCall::LinkProgram { program },
                GlCall::GetLinkStatus { program },
            ],
            end: Some(Ok::<u32, ShaderError>(program)),
        }),
{
    reveal_with_fuel(run, 6);
    let t = linking(
        vertex,
        fragment,
        seq![
            Reply::Handle(program),
            Reply::Done,
            Reply::Done,
            Reply::Done,
            Reply::Status(GL_TRUE),
        ],
    );
    assert(t.asked =~= seq![
        GlCall::CreateProgram,
        GlCall::AttachShader { program, shader: vertex },
        GlCall::AttachShader { program, shader: fragment },
        GlCall::LinkProgram { program },
        GlCall::GetLinkStatus { program },
    ]);
}

/// A program whose link status is anything but `GL_TRUE` is rejected: the
/// log is fetched and the job ends with a link error that carries the log
/// exactly as the context gave it.
pub proof fn law_link_fails(vertex: u32, fragment: u32, program: u32, status: i32, log: String)
    requires
        program != 0,
        status != GL_TRUE,
    ensures
        linking(
            vertex,
            fragment,
            seq![
                Reply::Handle(program),
                Reply::Done,
                Reply::Done,
                Reply::Done,
                Reply::Status(status),
                Reply::Log(log),
            ],
        ) == (Trace {
            asked: seq![
                GlCall::CreateProgram,
                GlCall::AttachShader { program, shader: vertex },
                GlCall::AttachShader { program, shader: fragment },
                GlCall::LinkProgram { program },
                GlCall::GetLinkStatus { program },
                GlCall::GetProgramLog { program },
            ],
            end: Some(Err::<u32, ShaderError>(ShaderError::Link { log })),
        }),
{
    reveal_with_fuel(run, 7);
    let t = linking(
        vertex,
        fragment,
        seq![
            Reply::Handle(program),
            Reply::Done,
            Reply::Done,
            Reply::Done,
            Reply::Status(status),
            Reply::Log(log),
        ],
    );
    assert(t.asked =~= seq![
        GlCall::CreateProgram,
        GlCall::AttachShader { program, shader: vertex },
        GlCall::AttachShader { program, shader: fragment },
        GlCall::LinkProgram { program },
        GlCall::GetLinkStatus { program },
        GlCall::GetProgramLog { program },
    ]);
}

/// The replies of a build whose two files are read and whose vertex shader
/// compiles, up to and including the vertex shader's status.
pub open spec fn vertex_compiled(vertex_source: String, fragment_source: String, vs: u32) -> Seq<
    Reply,
> {
    seq![
        Reply::File(Some(vertex_source)),
        Reply::File(Some(fragment_source)),
        Reply::Handle(vs),
        Reply::Done,
        Reply::Done,
        Reply::Status(GL_TRUE),
    ]
}

/// The requests of a build up to and including the creation of the fragment
/// shader, which follows a vertex shader that compiled.
pub open spec fn vertex_requests(
    vertex_path: String,
    fragment_path: String,
    vertex_source: String,
    vs: u32,
) -> Seq<Request> {
    seq![
        Request::ReadFile { path: vertex_path },
        Request::ReadFile { path: fragment_path },
        Request::Gl(GlCall::CreateShader { stage: ShaderStage::Vertex }),
        Request::Gl(GlCall::ShaderSource { shader: vs, source: vertex_source }),
        Request::Gl(GlCall::CompileShader { shader: vs }),
        Request::Gl(GlCall::GetCompileStatus { shader: vs }),
        Request::Gl(GlCall::CreateShader { stage: ShaderStage::Fragment }),
    ]
}

/// When both files are read, both shaders compile and the program links,
/// the build asks for exactly these requests in this order, deleting the
/// fragment and then the vertex shader once the link has succeeded, and ends
/// with the linked program.
pub proof fn law_build_succeeds(
    vertex_path: String,
    fragment_path: String,
    vertex_source: String,
    fragment_source: String,
    vs: u32,
    fs: u32,
    program: u32,
)
    requires
        program != 0,
    ensures
        building(
            vertex_path,
            fragment_path,
            vertex_compiled(vertex_source, fragment_source, vs) + seq![
                Reply::Handle(fs),
                Reply::Done,
                Reply::Done,
                Reply::Status(GL_TRUE),
                Reply::Handle(program),
                Reply::Done,
                Reply::Done,
                Reply::Done,
                Reply::Status(GL_TRUE),
                Reply::Done,
                Reply::Done,
            ],
        ) == (Trace {
            asked: vertex_requests(vertex_path, fragment_path, vertex_source, vs) + seq![
                Request::Gl(GlCall::ShaderSource { shader: fs, source: fragment_source }),
                Request::Gl(GlCall::CompileShader { shader: fs }),
                Request::Gl(GlCall::GetCompileStatus { shader: fs }),
                Request::Gl(GlCall::CreateProgram),
                Request::Gl(GlCall::AttachShader { program, shader: vs }),
                Request::Gl(GlCall::AttachShader { program, shader: fs }),
                Request::Gl(GlCall::LinkProgram { program }),
                Request::Gl(GlCall::GetLinkStatus { program }),
                Request::Gl(GlCall::DeleteShader { shader: fs }),
                Request::Gl(GlCall::DeleteShader { shader: vs }),
            ],
            end: Some(Ok::<u32, ShaderError>(program)),
        }),
{
    reveal_with_fuel(run, 18);
    let replies = vertex_compiled(vertex_source, fragment_source, vs) + seq![
        Reply::Handle(fs),
        Reply::Done,
        Reply::Done,
        Reply::Status(GL_TRUE),
        Reply::Handle(program),
        Reply::Done,
        Reply::Done,
        Reply::Done,
        Reply::Status(GL_TRUE),
        Reply::Done,
        Reply::Done,
    ];
    let t = building(vertex_path, fragment_path, replies);
    assert(t.asked =~= vertex_requests(vertex_path, fragment_path, vertex_source, vs) + seq![
        Request::Gl(GlCall::ShaderSource { shader: fs, source: fragment_source }),
        Request::Gl(GlCall::CompileShader { shader: fs }),
        Request::Gl(GlCall::GetCompileStatus { shader: fs }),
        Request::Gl(GlCall::CreateProgram),
        Request::Gl(GlCall::AttachShader { program, shader: vs }),
        Request::Gl(GlCall::AttachShader { program, shader: fs }),
        Request::Gl(GlCall::LinkProgram { program }),
        Request::Gl(GlCall::GetLinkStatus { program }),
        Request::Gl(GlCall::DeleteShader { shader: fs }),
        Request::Gl(GlCall::DeleteShader { shader: vs }),
    ]);
}

/// A vertex file that cannot be read ends the build at once: nothing else
/// is read, and the graphics context is never called.
pub proof fn law_unreadable_vertex_file(vertex_path: String, fragment_path: String)
    ensures
        building(vertex_path, fragment_path, seq![Reply::File(None)]) == (Trace {
            asked: seq![Request::ReadFile { path: vertex_path }],
            end: Some(Err::<u32, ShaderError>(ShaderError::Io { stage: ShaderStage::Vertex })),
        }),
{
    reveal_with_fuel(run, 2);
    let t = building(vertex_path, fragment_path, seq![Reply::File(None)]);
    assert(t.asked =~= seq![Request::ReadFile { path: vertex_path }]);
}

/// A fragment file that cannot be read ends the build after the two reads:
/// the graphics context is never called.
pub proof fn law_unreadable_fragment_file(
    vertex_path: String,
    fragment_path: String,
    vertex_source: String,
)
    ensures
        building(
            vertex_path,
            fragment_path,
            seq![Reply::File(Some(vertex_source)), Reply::File(None)],
        ) == (Trace {
            asked: seq![
                Request::ReadFile { path: vertex_path },
                Request::ReadFile { path: fragment_path },
            ],
            end: Some(Err::<u32, ShaderError>(ShaderError::Io { stage: ShaderStage::Fragment })),
        }),
{
    reveal_with_fuel(run, 3);
    let t = building(
        vertex_path,
        fragment_path,
        seq![Reply::File(Some(vertex_source)), Reply::File(None)],
    );
    assert(t.asked =~= seq![
        Request::ReadFile { path: vertex_path },
        Request::ReadFile { path: fragment_path },
    ]);
}

/// A vertex shader that does not compile ends the build with a compile
/// error of the vertex stage that carries the context's log. The fragment
/// shader is not even created.
pub proof fn law_vertex_shader_rejected(
    vertex_path: String,
    fragment_path: String,
    vertex_source: String,
    fragment_source: String,
    vs: u32,
    status: i32,
    log: String,
)
    requires
        status != GL_TRUE,
    ensures
        building(
            vertex_path,
            fragment_path,
            seq![
                Reply::File(Some(vertex_source)),
                Reply::File(Some(fragment_source)),
                Reply::Handle(vs),
                Reply::Done,
                Reply::Done,
                Reply::Status(status),
                Reply::Log(log),
            ],
        ) == (Trace {
            asked: seq![
                Request::ReadFile { path: vertex_path },
                Request::ReadFile { path: fragment_path },
                Request::Gl(GlCall::CreateShader { stage: ShaderStage::Vertex }),
                Request::Gl(GlCall::ShaderSource { shader: vs, source: vertex_source }),
                Request::Gl(GlCall::CompileShader { shader: vs }),
                Request::Gl(GlCall::GetCompileStatus { shader: vs }),
                Request::Gl(GlCall::GetShaderLog { shader: vs }),
            ],
            end: Some(
                Err::<u32, ShaderError>(ShaderError::Compile { stage: ShaderStage::Vertex, log }),
            ),
        }),
{
    reveal_with_fuel(run, 8);
    let t = building(
        vertex_path,
        fragment_path,
        seq![
            Reply::File(Some(vertex_source)),
            Reply::File(Some(fragment_source)),
            Reply::Handle(vs),
            Reply::Done,
            Reply::Done,
            Reply::Status(status),
            Reply::Log(log),
        ],
    );
    assert(t.asked =~= seq![
        Request::ReadFile { path: vertex_path },
        Request::ReadFile { path: fragment_path },
        Request::Gl(GlCall::CreateShader { stage: ShaderStage::Vertex }),
        Request::Gl(GlCall::ShaderSource { shader: vs, source: vertex_source }),
        Request::Gl(GlCall::CompileShader { shader: vs }),
        Request::Gl(GlCall::GetCompileStatus { shader: vs }),
        Request::Gl(GlCall::GetShaderLog { shader: vs }),
    ]);
}

/// After a vertex shader that compiled, a fragment shader that does not
/// compile ends the build with a compile error of the fragment stage that
/// carries the context's log. No program object is created.
pub proof fn law_fragment_shader_rejected(
    vertex_path: String,
    fragment_path: String,
    vertex_source: String,
    fragment_source: String,
    vs: u32,
    fs: u32,
    status: i32,
    log: String,
)
    requires
        status != GL_TRUE,
    ensures
        building(
            vertex_path,
            fragment_path,
            vertex_compiled(vertex_source, fragment_source, vs) + seq![
                Reply::Handle(fs),
                Reply::Done,
                Reply::Done,
                Reply::Status(status),
                Reply::Log(log),
            ],
        ) == (Trace {
            asked: vertex_requests(vertex_path, fragment_path, vertex_source, vs) + seq![
                Request::Gl(GlCall::ShaderSource { shader: fs, source: fragment_source }),
                Request::Gl(GlCall::CompileShader { shader: fs }),
                Request::Gl(GlCall::GetCompileStatus { shader: fs }),
                Request::Gl(GlCall::GetShaderLog { shader: fs }),
            ],
            end: Some(
                Err::<u32, ShaderError>(ShaderError::Compile { stage: ShaderStage::Fragment, log }),
            ),
        }),
{
    reveal_with_fuel(run, 12);
    let replies = vertex_compiled(vertex_source, fragment_source, vs) + seq![
        Reply::Handle(fs),
        Reply::Done,
        Reply::Done,
        Reply::Status(status),
        Reply::Log(log),
    ];
    let t = building(vertex_path, fragment_path, replies);
    assert(t.asked =~= vertex_requests(vertex_path, fragment_path, vertex_source, vs) + seq![
        Request::Gl(GlCall::ShaderSource { shader: fs, source: fragment_source }),
        Request::Gl(GlCall::CompileShader { shader: fs }),
        Request::Gl(GlCall::GetCompileStatus { shader: fs }),
        Request::Gl(GlCall::GetShaderLog { shader: fs }),
    ]);
}

/// When both shaders compile and the program does not link, the build ends
/// with a link error that carries the context's log. Neither shader object
/// is deleted.
pub proof fn law_program_rejected(
    vertex_path: String,
    fragment_path: String,
    vertex_source: String,
    fragment_source: String,
    vs: u32,
    fs: u32,
    program: u32,
    status: i32,
    log: String,
)
    requires
        program != 0,
        status != GL_TRUE,
    ensures
        building(
            vertex_path,
            fragment_path,
            vertex_compiled(vertex_source, fragment_source, vs) + seq![
                Reply::Handle(fs),
                Reply::Done,
                Reply::Done,
                Reply::Status(GL_TRUE),
                Reply::Handle(program),
                Reply::Done,
                Reply::Done,
                Reply::Done,
                Reply::Status(status),
                Reply::Log(log),
            ],
        ) == (Trace {
            asked: vertex_requests(vertex_path, fragment_path, vertex_source, vs) + seq![
                Request::Gl(GlCall::ShaderSource { shader: fs, source: fragment_source }),
                Request::Gl(GlCall::CompileShader { shader: fs }),
                Request::Gl(GlCall::GetCompileStatus { shader: fs }),
                Request::Gl(GlCall::CreateProgram),
                Request::Gl(GlCall::AttachShader { program, shader: vs }),
                Request::Gl(GlCall::AttachShader { program, shader: fs }),
                Request::Gl(GlCall::LinkProgram { program }),
                Request::Gl(GlCall::GetLinkStatus { program }),
                Request::Gl(GlCall::GetProgramLog { program }),
            ],
            end: Some(Err::<u32, ShaderError>(ShaderError::Link { log })),
        }),
{
    reveal_with_fuel(run, 17);
    let replies = vertex_compiled(vertex_source, fragment_source, vs) + seq![
        Reply::Handle(fs),
        Reply::Done,
        Reply::Done,
        Reply::Status(GL_TRUE),
        Reply::Handle(program),
        Reply::Done,
        Reply::Done,
        Reply::Done,
        Reply::Status(status),
        Reply::Log(log),
    ];
    let t = building(vertex_path, fragment_path, replies);
    assert(t.asked =~= vertex_requests(vertex_path, fragment_path, vertex_source, vs) + seq![
        Request::Gl(GlCall::ShaderSource { shader: fs, source: fragment_source }),
        Request::Gl(GlCall::CompileShader { shader: fs }),
        Request::Gl(GlCall::GetCompileStatus { shader: fs }),
        Request::Gl(GlCall::CreateProgram),
        Request::Gl(GlCall::AttachShader { program, shader: vs }),
        Request::Gl(GlCall::AttachShader { program, shader: fs }),
        Request::Gl(GlCall::LinkProgram { program }),
        Request::Gl(GlCall::GetLinkStatus { program }),
        Request::Gl(GlCall::GetProgramLog { program }),
    ]);
}

} // verus!
