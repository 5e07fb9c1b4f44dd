use gl_basics::protocol::{GlCall, Reply, Request, ShaderError, ShaderStage, Step, GL_TRUE};
use gl_basics::shader::{Shader, ShaderBuild};

const VS_SRC: &str = "#version 330 core\nvoid main() { gl_Position = vec4(0.0); }\n";
const FS_SRC: &str = "#version 330 core\nout vec4 color;\nvoid main() { color = vec4(1.0); }\n";

/// Serves a build with canned replies and records what it asks for.
fn drive(
    mut build: ShaderBuild,
    first: Request,
    replies: Vec<Reply>,
) -> (Vec<Request>, Option<Result<Shader, ShaderError>>) {
    let mut asked = vec![first];
    for reply in replies {
        assert!(build.accepts(&reply), "unexpected reply {:?} after {:?}", reply, asked);
        match build.advance(reply) {
            Step::Next(next, request) => {
                build = next;
                asked.push(request);
            }
            Step::Finished(end) => return (asked, Some(end)),
        }
    }
    (asked, None)
}

fn file(text: &str) -> Reply {
    Reply::File(Some(text.to_string()))
}

fn gl(call: GlCall) -> Request {
    Request::Gl(call)
}

fn up_to_fragment_creation(vs: u32) -> Vec<Request> {
    vec![
        Request::ReadFile { path: "cube.glslv".to_string() },
        Request::ReadFile { path: "cube.glslf".to_string() },
        gl(GlCall::CreateShader { stage: ShaderStage::Vertex }),
        gl(GlCall::ShaderSource { shader: vs, source: VS_SRC.to_string() }),
        gl(GlCall::CompileShader { shader: vs }),
        gl(GlCall::GetCompileStatus { shader: vs }),
        gl(GlCall::CreateShader { stage: ShaderStage::Fragment }),
    ]
}

fn vertex_compiled(vs: u32) -> Vec<Reply> {
    vec![
        file(VS_SRC),
        file(FS_SRC),
        Reply::Handle(vs),
        Reply::Done,
        Reply::Done,
        Reply::Status(GL_TRUE),
    ]
}

#[test]
fn from_source_first_reads_the_vertex_file() {
    let (_build, first) = Shader::from_source("cube.glslv", "cube.glslf");
    assert_eq!(first, Request::ReadFile { path: "cube.glslv".to_string() });
}

#[test]
fn build_that_succeeds_asks_for_the_whole_script_and_yields_the_program() {
    let (build, first) = Shader::from_source("cube.glslv", "cube.glslf");
    let mut replies = vertex_compiled(3);
    replies.extend(vec![
        Reply::Handle(4),
        Reply::Done,
        Reply::Done,
        Reply::Status(GL_TRUE),
        Reply::Handle(9),
        Reply::Done,
        Reply::Done,
        Reply::Done,
        Reply::Status(GL_TRUE),
        Reply::Done,
        Reply::Done,
    ]);
    let (asked, end) = drive(build, first, replies);
    let mut expected = up_to_fragment_creation(3);
    expected.extend(vec![
        gl(GlCall::ShaderSource { shader: 4, source: FS_SRC.to_string() }),
        gl(GlCall::CompileShader { shader: 4 }),
        gl(GlCall::GetCompileStatus { shader: 4 }),
        gl(GlCall::CreateProgram),
        gl(GlCall::AttachShader { program: 9, shader: 3 }),
        gl(GlCall::AttachShader { program: 9, shader: 4 }),
        gl(GlCall::LinkProgram { program: 9 }),
        gl(GlCall::GetLinkStatus { program: 9 }),
        gl(GlCall::DeleteShader { shader: 4 }),
        gl(GlCall::DeleteShader { shader: 3 }),
    ]);
    assert_eq!(asked, expected);
    let shader = end.expect("the build has ended").expect("the build has succeeded");
    assert_eq!(shader.program(), 9);
}

#[test]
fn built_program_is_used_and_released_by_its_handle() {
    let (build, first) = Shader::from_source("a", "b");
    let mut replies = vertex_compiled(1);
    replies.extend(vec![
        Reply::Handle(2),
        Reply::Done,
        Reply::Done,
        Reply::Status(GL_TRUE),
        Reply::Handle(77),
        Reply::Done,
        Reply::Done,
        Reply::Done,
        Reply::Status(GL_TRUE),
        Reply::Done,
        Reply::Done,
    ]);
    let (_, end) = drive(build, first, replies);
    let shader = end.unwrap().unwrap();
    assert_eq!(shader.program(), 77);
    assert_eq!(shader.gl_use(), GlCall::UseProgram { program: 77 });
    assert_eq!(shader.gl_use(), GlCall::UseProgram { program: 77 });
    assert_eq!(shader.release(), GlCall::DeleteProgram { program: 77 });
}

#[test]
fn unreadable_vertex_file_ends_the_build_at_once() {
    let (build, first) = Shader::from_source("missing.glslv", "cube.glslf");
    let (asked, end) = drive(build, first, vec![Reply::File(None)]);
    assert_eq!(asked, vec![Request::ReadFile { path: "missing.glslv".to_string() }]);
    assert_eq!(end.unwrap().unwrap_err(), ShaderError::Io { stage: ShaderStage::Vertex });
}

#[test]
fn unreadable_fragment_file_ends_the_build_before_any_gl_call() {
    let (build, first) = Shader::from_source("cube.glslv", "missing.glslf");
    let (asked, end) = drive(build, first, vec![file(VS_SRC), Reply::File(None)]);
    assert_eq!(
        asked,
        vec![
            Request::ReadFile { path: "cube.glslv".to_string() },
            Request::ReadFile { path: "missing.glslf".to_string() },
        ]
    );
    assert_eq!(end.unwrap().unwrap_err(), ShaderError::Io { stage: ShaderStage::Fragment });
}

#[test]
fn vertex_shader_with_syntax_error_fails_with_vertex_stage_and_log() {
    let (build, first) = Shader::from_source("cube.glslv", "cube.glslf");
    let log = "0:2(1): error: syntax error, unexpected $end";
    let replies = vec![
        file("void main() {"),
        file(FS_SRC),
        Reply::Handle(3),
        Reply::Done,
        Reply::Done,
        Reply::Status(0),
        Reply::Log(log.to_string()),
    ];
    let (asked, end) = drive(build, first, replies);
    assert_eq!(
        asked,
        vec![
            Request::ReadFile { path: "cube.glslv".to_string() },
            Request::ReadFile { path: "cube.glslf".to_string() },
            gl(GlCall::CreateShader { stage: ShaderStage::Vertex }),
            gl(GlCall::ShaderSource { shader: 3, source: "void main() {".to_string() }),
            gl(GlCall::CompileShader { shader: 3 }),
            gl(GlCall::GetCompileStatus { shader: 3 }),
            gl(GlCall::GetShaderLog { shader: 3 }),
        ]
    );
    match end.unwrap().unwrap_err() {
        ShaderError::Compile { stage, log: reported } => {
            assert_eq!(stage, ShaderStage::Vertex);
            assert!(!reported.is_empty());
            assert_eq!(reported, log);
        }
        other => panic!("expected a compile error, got {:?}", other),
    }
}

#[test]
fn invalid_fragment_shader_surfaces_before_link_is_reached() {
    let (build, first) = Shader::from_source("cube.glslv", "cube.glslf");
    let mut replies = vertex_compiled(3);
    replies.extend(vec![
        Reply::Handle(4),
        Reply::Done,
        Reply::Done,
        Reply::Status(0),
        Reply::Log("0:1(1): error: `color' undeclared".to_string()),
    ]);
    let (asked, end) = drive(build, first, replies);
    let mut expected = up_to_fragment_creation(3);
    expected.extend(vec![
        gl(GlCall::ShaderSource { shader: 4, source: FS_SRC.to_string() }),
        gl(GlCall::CompileShader { shader: 4 }),
        gl(GlCall::GetCompileStatus { shader: 4 }),
        gl(GlCall::GetShaderLog { shader: 4 }),
    ]);
    assert_eq!(asked, expected);
    for request in &asked {
        assert!(!matches!(
            request,
            Request::Gl(
                GlCall::CreateProgram
                    | GlCall::AttachShader { .. }
                    | GlCall::LinkProgram { .. }
                    | GlCall::GetLinkStatus { .. }
                    | GlCall::GetProgramLog { .. }
            )
        ));
    }
    assert_eq!(
        end.unwrap().unwrap_err(),
        ShaderError::Compile {
            stage: ShaderStage::Fragment,
            log: "0:1(1): error: `color' undeclared".to_string(),
        }
    );
}

#[test]
fn program_that_does_not_link_fails_with_its_log_and_deletes_nothing() {
    let (build, first) = Shader::from_source("cube.glslv", "cube.glslf");
    let mut replies = vertex_compiled(3);
    replies.extend(vec![
        Reply::Handle(4),
        Reply::Done,
        Reply::Done,
        Reply::Status(GL_TRUE),
        Reply::Handle(9),
        Reply::Done,
        Reply::Done,
        Reply::Done,
        Reply::Status(0),
        Reply::Log("error: vertex shader lacks `main'".to_string()),
    ]);
    let (asked, end) = drive(build, first, replies);
    assert_eq!(asked.len(), 7 + 9);
    assert_eq!(asked[15], gl(GlCall::GetProgramLog { program: 9 }));
    assert!(asked.iter().all(|request| !matches!(request, Request::Gl(GlCall::DeleteShader { .. }))));
    assert_eq!(
        end.unwrap().unwrap_err(),
        ShaderError::Link { log: "error: vertex shader lacks `main'".to_string() }
    );
}

#[test]
fn any_status_other_than_true_counts_as_failure() {
    for status in [0, -1, 2, i32::MAX, i32::MIN] {
        let (build, first) = Shader::from_source("v", "f");
        let replies = vec![
            file(VS_SRC),
            file(FS_SRC),
            Reply::Handle(1),
            Reply::Done,
            Reply::Done,
            Reply::Status(status),
        ];
        let (asked, end) = drive(build, first, replies);
        assert!(end.is_none());
        assert_eq!(asked.last(), Some(&gl(GlCall::GetShaderLog { shader: 1 })));
    }
}

#[test]
fn empty_log_is_carried_as_it_is() {
    let (build, first) = Shader::from_source("v", "f");
    let replies = vec![
        file(""),
        file(""),
        Reply::Handle(1),
        Reply::Done,
        Reply::Done,
        Reply::Status(0),
        Reply::Log(String::new()),
    ];
    let (_, end) = drive(build, first, replies);
    assert_eq!(
        end.unwrap().unwrap_err(),
        ShaderError::Compile { stage: ShaderStage::Vertex, log: String::new() }
    );
}

#[test]
fn build_accepts_only_the_kind_of_reply_it_waits_for() {
    let (build, _) = Shader::from_source("v", "f");
    assert!(build.accepts(&Reply::File(None)));
    assert!(build.accepts(&file("x")));
    assert!(!build.accepts(&Reply::Done));
    assert!(!build.accepts(&Reply::Handle(1)));
    assert!(!build.accepts(&Reply::Status(GL_TRUE)));
    assert!(!build.accepts(&Reply::Log(String::new())));
}

#[test]
fn build_refuses_a_zero_program_handle() {
    let (mut build, first) = Shader::from_source("v", "f");
    let mut replies = vertex_compiled(3);
    replies.extend(vec![Reply::Handle(4), Reply::Done, Reply::Done, Reply::Status(GL_TRUE)]);
    let mut last = first;
    for reply in replies {
        assert!(build.accepts(&reply));
        match build.advance(reply) {
            Step::Next(next, request) => {
                build = next;
                last = request;
            }
            Step::Finished(_) => panic!("the build has not ended yet"),
        }
    }
    assert_eq!(last, gl(GlCall::CreateProgram));
    assert!(!build.accepts(&Reply::Handle(0)));
    assert!(build.accepts(&Reply::Handle(1)));
    assert!(!build.accepts(&Reply::Done));
}

#[test]
fn zero_shader_handles_are_passed_on() {
    let (build, first) = Shader::from_source("v", "f");
    let (asked, end) = drive(build, first, vec![file("a"), file("b"), Reply::Handle(0)]);
    assert!(end.is_none());
    assert_eq!(asked[3], gl(GlCall::ShaderSource { shader: 0, source: "a".to_string() }));
}

#[test]
fn every_build_ends_within_seventeen_requests() {
    for vertex_status in [GL_TRUE, 0] {
        for fragment_status in [GL_TRUE, 0] {
            for link_status in [GL_TRUE, 0] {
                let (mut build, first) = Shader::from_source("v", "f");
                let mut asked = vec![first];
                let mut statuses = vec![link_status, fragment_status, vertex_status];
                let end = loop {
                    let reply = match asked.last().unwrap() {
                        Request::ReadFile { .. } => file("void main() {}"),
                        Request::Gl(GlCall::CreateShader { .. }) => Reply::Handle(asked.len() as u32),
                        Request::Gl(GlCall::CreateProgram) => Reply::Handle(100),
                        Request::Gl(GlCall::GetCompileStatus { .. })
                        | Request::Gl(GlCall::GetLinkStatus { .. }) => {
                            Reply::Status(statuses.pop().unwrap())
                        }
                        Request::Gl(GlCall::GetShaderLog { .. })
                        | Request::Gl(GlCall::GetProgramLog { .. }) => Reply::Log("log".to_string()),
                        Request::Gl(_) => Reply::Done,
                    };
                    assert!(build.accepts(&reply));
                    match build.advance(reply) {
                        Step::Next(next, request) => {
                            build = next;
                            asked.push(request);
                        }
                        Step::Finished(end) => break end,
                    }
                    assert!(asked.len() <= 17);
                };
                assert!(asked.len() <= 17);
                match end {
                    Ok(shader) => {
                        assert_eq!((vertex_status, fragment_status, link_status), (1, 1, 1));
                        assert_eq!(asked.len(), 17);
                        assert_eq!(shader.program(), 100);
                    }
                    Err(ShaderError::Compile { stage: ShaderStage::Vertex, .. }) => {
                        assert_eq!(vertex_status, 0);
                        assert_eq!(asked.len(), 7);
                    }
                    Err(ShaderError::Compile { stage: ShaderStage::Fragment, .. }) => {
                        assert_eq!((vertex_status, fragment_status), (1, 0));
                        assert_eq!(asked.len(), 11);
                    }
                    Err(ShaderError::Link { .. }) => {
                        assert_eq!((vertex_status, fragment_status, link_status), (1, 1, 0));
                        assert_eq!(asked.len(), 16);
                    }
                    Err(other) => panic!("no file was unreadable, yet {:?}", other),
                }
            }
        }
    }
}
