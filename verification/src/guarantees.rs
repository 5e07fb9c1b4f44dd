//! What holds of every build, whatever the driver answers: failures come
//! before linking, logs are carried word for word, and a program that is
//! handed out was linked.

use vstd::prelude::*;
use crate::compile::Compilation;
use crate::link::Linkage;
use crate::protocol::{GlCall, Reply, Request, ShaderError, Step, GL_TRUE};
use crate::run::{build_run, building};
use crate::shader::{BuildPhase, Built};

verus! {

/// Whether `request` is a call on a program object.
pub open spec fn concerns_program(request: Request) -> bool {
    request matches Request::Gl(call) && (call is CreateProgram || call is AttachShader
        || call is LinkProgram || call is GetLinkStatus || call is GetProgramLog
        || call is UseProgram || call is DeleteProgram)
}

/// Whether a build in `phase` has both shaders compiled.
pub open spec fn past_compiling(phase: BuildPhase) -> bool {
    phase is Linking || phase is DeletingFragment || phase is DeletingVertex
}

/// Whether `end` is a failure to read or to compile.
pub open spec fn failed_before_linking(end: Option<Built>) -> bool {
    end matches Some(Err(error)) && !(error is Link)
}

/// Once both shaders are compiled, a build can only end with a program or
/// with a link error.
proof fn lemma_past_compiling(phase: BuildPhase, replies: Seq<Reply>, from: int)
    requires
        past_compiling(phase),
    ensures
        !failed_before_linking(build_run(phase, replies, from).end),
    decreases replies.len() - from,
{
    if 0 <= from < replies.len() && phase.expects(replies[from]) {
        match phase.step(replies[from]) {
            Step::Next(next, _) => {
                lemma_past_compiling(next, replies, from + 1);
            },
            Step::Finished(_) => {},
        }
    }
}

/// A run that ends in a failure to read or to compile never asked for a
/// call on a program object.
proof fn lemma_fails_before_linking(phase: BuildPhase, replies: Seq<Reply>, from: int)
    requires
        failed_before_linking(build_run(phase, replies, from).end),
    ensures
        forall|i: int|
            0 <= i < build_run(phase, replies, from).asked.len() ==> !concerns_program(
                #[trigger] build_run(phase, replies, from).asked[i],
            ),
    decreases replies.len() - from,
{
    if 0 <= from < replies.len() && phase.expects(replies[from]) {
        match phase.step(replies[from]) {
            Step::Next(next, request) => {
                if past_compiling(next) {
                    lemma_past_compiling(next, replies, from + 1);
                } else {
                    lemma_fails_before_linking(next, replies, from + 1);
                }
            },
            Step::Finished(_) => {},
        }
    }
}

/// Whatever comes back from the driver: a build that ends because a file
/// could not be read or a shader did not compile has made no call on a
/// program object. Linking is reached only after both shaders compiled.
pub proof fn law_failure_precedes_linking(
    vertex_path: String,
    fragment_path: String,
    replies: Seq<Reply>,
)
    requires
        failed_before_linking(building(vertex_path, fragment_path, replies).end),
    ensures
        forall|i: int|
            0 <= i < building(vertex_path, fragment_path, replies).asked.len()
                ==> !concerns_program(
                #[trigger] building(vertex_path, fragment_path, replies).asked[i],
            ),
{
    lemma_fails_before_linking(BuildPhase::ReadingVertex { fragment_path }, replies, 0);
}

/// Whether a build in `phase` waits for the log of a shader.
pub open spec fn awaits_shader_log(phase: BuildPhase) -> bool {
    ||| phase matches BuildPhase::CompilingVertex { job, .. } && job is Diagnosing
    ||| phase matches BuildPhase::CompilingFragment { job, .. } && job is Diagnosing
}

/// Whether a build in `phase` waits for the log of a program.
pub open spec fn awaits_program_log(phase: BuildPhase) -> bool {
    phase matches BuildPhase::Linking { linkage, .. } && linkage is Diagnosing
}

/// Whether `request` asks for the log of a shader.
pub open spec fn asks_shader_log(request: Request) -> bool {
    request matches Request::Gl(call) && call is GetShaderLog
}

/// Whether `request` asks for the log of a program.
pub open spec fn asks_program_log(request: Request) -> bool {
    request matches Request::Gl(call) && call is GetProgramLog
}

/// Whether `end` is a compile error that carries `log`.
pub open spec fn compile_error_with(end: Option<Built>, log: String) -> bool {
    end matches Some(Err(ShaderError::Compile { log: carried, .. })) && carried == log
}

/// Whether `end` is a link error that carries `log`.
pub open spec fn link_error_with(end: Option<Built>, log: String) -> bool {
    end matches Some(Err(ShaderError::Link { log: carried })) && carried == log
}

/// A run that ends with a log ends on the reply that brought it, and that
/// reply answers the request for a log of the kind that failed.
proof fn lemma_log_is_last_reply(phase: BuildPhase, replies: Seq<Reply>, from: int, log: String)
    requires
        compile_error_with(build_run(phase, replies, from).end, log) || link_error_with(
            build_run(phase, replies, from).end,
            log,
        ),
    ensures
        ({
            let t = build_run(phase, replies, from);
            let compile = compile_error_with(t.end, log);
            &&& 0 <= from + t.asked.len() < replies.len()
            &&& replies[from + t.asked.len()] == Reply::Log(log)
            &&& t.asked.len() == 0 ==> if compile {
                awaits_shader_log(phase)
            } else {
                awaits_program_log(phase)
            }
            &&& t.asked.len() > 0 ==> if compile {
                asks_shader_log(t.asked.last())
            } else {
                asks_program_log(t.asked.last())
            }
        }),
    decreases replies.len() - from,
{
    if 0 <= from < replies.len() && phase.expects(replies[from]) {
        match phase.step(replies[from]) {
            Step::Next(next, request) => {
                lemma_log_is_last_reply(next, replies, from + 1, log);
                let rest = build_run(next, replies, from + 1);
                let t = build_run(phase, replies, from);
                assert(t.asked == seq![request] + rest.asked);
                if rest.asked.len() > 0 {
                    assert(t.asked.last() == rest.asked.last());
                } else {
                    assert(t.asked.last() == request);
                }
            },
            Step::Finished(_) => {},
        }
    }
}

/// Whatever comes back from the driver: the log that a compile or link
/// error carries is the last reply of the run, word for word, and the last
/// request of the run asked for it, of a shader for a compile error and of
/// a program for a link error.
pub proof fn law_log_is_verbatim(
    vertex_path: String,
    fragment_path: String,
    replies: Seq<Reply>,
    log: String,
)
    requires
        compile_error_with(building(vertex_path, fragment_path, replies).end, log)
            || link_error_with(building(vertex_path, fragment_path, replies).end, log),
    ensures
        ({
            let t = building(vertex_path, fragment_path, replies);
            &&& 0 < t.asked.len() <= replies.len()
            &&& replies[t.asked.len() - 1] == Reply::Log(log)
            &&& compile_error_with(t.end, log) ==> asks_shader_log(t.asked.last())
            &&& link_error_with(t.end, log) ==> asks_program_log(t.asked.last())
        }),
{
    let start = BuildPhase::ReadingVertex { fragment_path };
    lemma_log_is_last_reply(start, replies, 0, log);
    let rest = build_run(start, replies, 0);
    let t = building(vertex_path, fragment_path, replies);
    assert(t.asked.len() == rest.asked.len() + 1);
    assert(rest.asked.len() > 0);
    assert(t.asked.last() == rest.asked.last());
}

/// Whether the `k`-th request asked for the link status of `program` and
/// was answered with `GL_TRUE`, where the `k`-th request is answered by the
/// reply at `k + shift`.
pub open spec fn link_confirmed_at(
    asked: Seq<Request>,
    replies: Seq<Reply>,
    shift: int,
    k: int,
    program: u32,
) -> bool {
    &&& 0 <= k < asked.len()
    &&& 0 <= k + shift < replies.len()
    &&& asked[k] == Request::Gl(GlCall::GetLinkStatus { program })
    &&& replies[k + shift] == Reply::Status(GL_TRUE)
}

/// Whether a build in `phase` has seen `program` linked.
pub open spec fn has_linked(phase: BuildPhase, program: u32) -> bool {
    ||| phase matches BuildPhase::DeletingFragment { program: p, .. } && p == program
    ||| phase matches BuildPhase::DeletingVertex { program: p } && p == program
}

/// Whether a build in `phase` waits for the link status of `program`.
pub open spec fn awaits_link_status(phase: BuildPhase, program: u32) -> bool {
    phase matches BuildPhase::Linking { linkage: Linkage::Checking { program: p }, .. } && p
        == program
}

/// A run that ends with a program has seen that program's link status
/// reported as `GL_TRUE`: before the run, on its first reply, or on a later
/// one.
proof fn lemma_program_was_linked(phase: BuildPhase, replies: Seq<Reply>, from: int, program: u32)
    requires
        phase.wf(),
        build_run(phase, replies, from).end == Some(Ok::<u32, ShaderError>(program)),
    ensures
        program != 0,
        ({
            let t = build_run(phase, replies, from);
            let shift = from + 1;
            ||| has_linked(phase, program)
            ||| awaits_link_status(phase, program) && replies[from] == Reply::Status(GL_TRUE)
            ||| exists|k: int| #[trigger] link_confirmed_at(t.asked, replies, shift, k, program)
        }),
    decreases replies.len() - from,
{
    if 0 <= from < replies.len() && phase.expects(replies[from]) {
        match phase.step(replies[from]) {
            Step::Next(next, request) => {
                lemma_program_was_linked(next, replies, from + 1, program);
                let rest = build_run(next, replies, from + 1);
                let t = build_run(phase, replies, from);
                assert(t.asked == seq![request] + rest.asked);
                if has_linked(next, program) {
                } else if awaits_link_status(next, program) && replies[from + 1] == Reply::Status(
                    GL_TRUE,
                ) {
                    assert(link_confirmed_at(t.asked, replies, from + 1, 0, program));
                } else {
                    let shift = from + 2;
                    let k = choose|k: int|
                        #[trigger] link_confirmed_at(rest.asked, replies, shift, k, program);
                    assert(t.asked[k + 1] == rest.asked[k]);
                    assert(link_confirmed_at(t.asked, replies, from + 1, k + 1, program));
                }
            },
            Step::Finished(_) => {},
        }
    }
}

/// Whatever comes back from the driver: a build that ends with a program
/// ends with one that is not zero and whose link status was asked for and
/// reported as `GL_TRUE`.
pub proof fn law_program_was_linked(
    vertex_path: String,
    fragment_path: String,
    replies: Seq<Reply>,
    program: u32,
)
    requires
        building(vertex_path, fragment_path, replies).end == Some(Ok::<u32, ShaderError>(program)),
    ensures
        program != 0,
        exists|k: int|
            #[trigger] link_confirmed_at(
                building(vertex_path, fragment_path, replies).asked,
                replies,
                0,
                k,
                program,
            ),
{
    let start = BuildPhase::ReadingVertex { fragment_path };
    lemma_program_was_linked(start, replies, 0, program);
    let rest = build_run(start, replies, 0);
    let t = building(vertex_path, fragment_path, replies);
    let k = choose|k: int| #[trigger] link_confirmed_at(rest.asked, replies, 1, k, program);
    assert(t.asked[k + 1] == rest.asked[k]);
    assert(link_confirmed_at(t.asked, replies, 0, k + 1, program));
}

/// The number of requests that a compilation in `job` can still make.
pub open spec fn compile_budget(job: Compilation) -> nat {
    match job {
        Compilation::Creating { .. } => 4,
        Compilation::Sourcing { .. } => 3,
        Compilation::Compiling { .. } => 2,
        Compilation::Checking { .. } => 1,
        Compilation::Diagnosing { .. } => 0,
    }
}

/// The number of requests that a build in `phase` can still make.
pub open spec fn budget(phase: BuildPhase) -> nat {
    match phase {
        BuildPhase::ReadingVertex { .. } => 16,
        BuildPhase::ReadingFragment { .. } => 15,
        BuildPhase::CompilingVertex { job, .. } => if job is Diagnosing {
            0
        } else {
            10 + compile_budget(job)
        },
        BuildPhase::CompilingFragment { job, .. } => if job is Diagnosing {
            0
        } else {
            6 + compile_budget(job)
        },
        BuildPhase::Linking { linkage, .. } => match linkage {
            Linkage::Creating { .. } => 6,
            Linkage::AttachingVertex { .. } => 5,
            Linkage::AttachingFragment { .. } => 4,
            Linkage::Linking { .. } => 3,
            Linkage::Checking { .. } => 2,
            Linkage::Diagnosing { .. } => 0,
        },
        BuildPhase::DeletingFragment { .. } => 1,
        BuildPhase::DeletingVertex { .. } => 0,
    }
}

/// Every request uses up the budget of the phase it was made in.
proof fn lemma_budget(phase: BuildPhase, replies: Seq<Reply>, from: int)
    ensures
        build_run(phase, replies, from).asked.len() <= budget(phase),
    decreases replies.len() - from,
{
    if 0 <= from < replies.len() && phase.expects(replies[from]) {
        match phase.step(replies[from]) {
            Step::Next(next, _) => {
                lemma_budget(next, replies, from + 1);
            },
            Step::Finished(_) => {},
        }
    }
}

/// Whatever comes back from the driver, and however much of it: a build
/// makes at most seventeen requests.
pub proof fn law_build_is_bounded(vertex_path: String, fragment_path: String, replies: Seq<Reply>)
    ensures
        building(vertex_path, fragment_path, replies).asked.len() <= 17,
{
    lemma_budget(BuildPhase::ReadingVertex { fragment_path }, replies, 0);
}

} // verus!
