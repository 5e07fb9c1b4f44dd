use gl_basics::compile::Compilation;
use gl_basics::link::Linkage;
use gl_basics::protocol::{GlCall, Reply, ShaderError, ShaderStage, Step, GL_TRUE};
use gl_basics::shader::Shader;

fn compile(stage: ShaderStage, source: &str, replies: Vec<Reply>) -> (Vec<GlCall>, Option<Result<u32, ShaderError>>) {
    let (mut job, first) = Shader::compile_shader(source, stage);
    let mut asked = vec![first];
    for reply in replies {
        assert!(job.accepts(&reply));
        match job.advance(reply) {
            Step::Next(next, call) => {
                job = next;
                asked.push(call);
            }
            Step::Finished(end) => return (asked, Some(end)),
        }
    }
    (asked, None)
}

fn link(vs: u32, fs: u32, replies: Vec<Reply>) -> (Vec<GlCall>, Option<Result<u32, ShaderError>>) {
    let (mut job, first) = Shader::link_program(vs, fs);
    let mut asked = vec![first];
    for reply in replies {
        assert!(job.accepts(&reply));
        match job.advance(reply) {
            Step::Next(next, call) => {
                job = next;
                asked.push(call);
            }
            Step::Finished(end) => return (asked, Some(end)),
        }
    }
    (asked, None)
}

#[test]
fn gl_true_is_one() {
    assert_eq!(GL_TRUE, 1);
}

#[test]
fn compile_shader_starts_by_creating_a_shader_of_its_stage() {
    let (job, first) = Shader::compile_shader("void main() {}", ShaderStage::Fragment);
    assert_eq!(first, GlCall::CreateShader { stage: ShaderStage::Fragment });
    assert_eq!(
        job,
        Compilation::Creating { stage: ShaderStage::Fragment, source: "void main() {}".to_string() }
    );
}

#[test]
fn compile_that_succeeds_returns_the_shader_handle_without_fetching_the_log() {
    let (asked, end) = compile(
        ShaderStage::Vertex,
        "void main() {}",
        vec![Reply::Handle(12), Reply::Done, Reply::Done, Reply::Status(GL_TRUE)],
    );
    assert_eq!(
        asked,
        vec![
            GlCall::CreateShader { stage: ShaderStage::Vertex },
            GlCall::ShaderSource { shader: 12, source: "void main() {}".to_string() },
            GlCall::CompileShader { shader: 12 },
            GlCall::GetCompileStatus { shader: 12 },
        ]
    );
    assert_eq!(end, Some(Ok(12)));
}

#[test]
fn compile_that_fails_carries_stage_and_full_log() {
    let log = "ERROR: 0:1: '' : syntax error\nERROR: 1 compilation errors.\n";
    let (asked, end) = compile(
        ShaderStage::Vertex,
        "void main( {}",
        vec![
            Reply::Handle(12),
            Reply::Done,
            Reply::Done,
            Reply::Status(0),
            Reply::Log(log.to_string()),
        ],
    );
    assert_eq!(asked.len(), 5);
    assert_eq!(asked[4], GlCall::GetShaderLog { shader: 12 });
    assert_eq!(
        end,
        Some(Err(ShaderError::Compile { stage: ShaderStage::Vertex, log: log.to_string() }))
    );
}

#[test]
fn compile_error_names_the_fragment_stage_for_a_fragment_shader() {
    let (_, end) = compile(
        ShaderStage::Fragment,
        "x",
        vec![
            Reply::Handle(1),
            Reply::Done,
            Reply::Done,
            Reply::Status(0),
            Reply::Log("bad".to_string()),
        ],
    );
    assert_eq!(
        end,
        Some(Err(ShaderError::Compile { stage: ShaderStage::Fragment, log: "bad".to_string() }))
    );
}

#[test]
fn compilation_accepts_only_the_kind_of_reply_it_waits_for() {
    let (job, _) = Shader::compile_shader("x", ShaderStage::Vertex);
    assert!(job.accepts(&Reply::Handle(0)));
    assert!(!job.accepts(&Reply::Done));
    let checking = Compilation::Checking { stage: ShaderStage::Vertex, shader: 1 };
    assert!(checking.accepts(&Reply::Status(0)));
    assert!(!checking.accepts(&Reply::Log(String::new())));
    let diagnosing = Compilation::Diagnosing { stage: ShaderStage::Vertex, shader: 1 };
    assert!(diagnosing.accepts(&Reply::Log(String::new())));
    assert!(!diagnosing.accepts(&Reply::Status(0)));
    let sourcing = Compilation::Sourcing { stage: ShaderStage::Vertex, shader: 1 };
    assert!(sourcing.accepts(&Reply::Done));
    assert!(!sourcing.accepts(&Reply::File(None)));
}

#[test]
fn link_program_starts_by_creating_a_program() {
    let (job, first) = Shader::link_program(3, 4);
    assert_eq!(first, GlCall::CreateProgram);
    assert_eq!(job, Linkage::Creating { vertex: 3, fragment: 4 });
}

#[test]
fn link_that_succeeds_attaches_vertex_then_fragment_and_returns_the_program() {
    let (asked, end) = link(
        3,
        4,
        vec![Reply::Handle(8), Reply::Done, Reply::Done, Reply::Done, Reply::Status(GL_TRUE)],
    );
    assert_eq!(
        asked,
        vec![
            GlCall::CreateProgram,
            GlCall::AttachShader { program: 8, shader: 3 },
            GlCall::AttachShader { program: 8, shader: 4 },
            GlCall::LinkProgram { program: 8 },
            GlCall::GetLinkStatus { program: 8 },
        ]
    );
    assert_eq!(end, Some(Ok(8)));
}

#[test]
fn link_that_fails_carries_the_full_log() {
    let (asked, end) = link(
        3,
        4,
        vec![
            Reply::Handle(8),
            Reply::Done,
            Reply::Done,
            Reply::Done,
            Reply::Status(0),
            Reply::Log("error: varying `uv' not written".to_string()),
        ],
    );
    assert_eq!(asked.last(), Some(&GlCall::GetProgramLog { program: 8 }));
    assert_eq!(
        end,
        Some(Err(ShaderError::Link { log: "error: varying `uv' not written".to_string() }))
    );
}

#[test]
fn linkage_refuses_a_zero_program_handle() {
    let (job, _) = Shader::link_program(3, 4);
    assert!(!job.accepts(&Reply::Handle(0)));
    assert!(job.accepts(&Reply::Handle(u32::MAX)));
    assert!(!job.accepts(&Reply::Status(GL_TRUE)));
}

#[test]
fn message_of_a_compile_or_link_error_is_the_log_verbatim() {
    let log = "0:3(7): error: no matching function for call to `normalize(float)'\n";
    let compile = ShaderError::Compile { stage: ShaderStage::Fragment, log: log.to_string() };
    let link = ShaderError::Link { log: log.to_string() };
    assert_eq!(compile.message(), log);
    assert_eq!(link.message(), log);
    assert_eq!(ShaderError::Link { log: String::new() }.message(), "");
}

#[test]
fn message_of_an_unreadable_file_names_the_stage() {
    assert_eq!(ShaderError::Io { stage: ShaderStage::Vertex }.message(), "Could not read vertex path");
    assert_eq!(
        ShaderError::Io { stage: ShaderStage::Fragment }.message(),
        "Could not read fragment path"
    );
}
