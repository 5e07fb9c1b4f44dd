//! Whole runs of the builders: what is asked for, in order, and how it ends,
//! when a given sequence of answers comes back.

use vstd::prelude::*;
use crate::compile::{Compilation, Compiled};
use crate::link::{Linkage, Linked};
use crate::protocol::{GlCall, Reply, Request, ShaderStage, Step};
use crate::shader::{BuildPhase, Built};

verus! {

/// A run: the requests that were issued in answer to the replies, in order,
/// and the result if the run came to its end.
pub struct Trace<C, R> {
    pub asked: Seq<C>,
    pub end: Option<R>,
}

/// Feeds `replies[from..]` to a builder in `state`, one by one. The run stops
/// at the builder's end, at a reply the builder does not expect, or when the
/// replies are used up.
pub open spec fn run<S, C, R>(
    expects: spec_fn(S, Reply) -> bool,
    step: spec_fn(S, Reply) -> Step<S, C, R>,
    state: S,
    replies: Seq<Reply>,
    from: int,
) -> Trace<C, R>
    decreases replies.len() - from,
{
    if from < 0 || from >= replies.len() || !expects(state, replies[from]) {
        Trace { asked: Seq::empty(), end: None }
    } else {
        match step(state, replies[from]) {
            Step::Next(next, call) => {
                let rest = run(expects, step, next, replies, from + 1);
                Trace { asked: seq![call] + rest.asked, end: rest.end }
            },
            Step::Finished(result) => Trace { asked: Seq::empty(), end: Some(result) },
        }
    }
}

/// Prepends the request that started a run to what the run asked for.
pub open spec fn started<C, R>(first: C, rest: Trace<C, R>) -> Trace<C, R> {
    Trace { asked: seq![first] + rest.asked, end: rest.end }
}

/// Compiling `source` as a shader of `stage`, with `replies` coming back.
pub open spec fn compiling(stage: ShaderStage, source: String, replies: Seq<Reply>) -> Trace<
    GlCall,
    Compiled,
> {
    started(
        GlCall::CreateShader { stage },
        run(
            |job: Compilation, reply: Reply| job.expects(reply),
            |job: Compilation, reply: Reply| job.step(reply),
            Compilation::Creating { stage, source },
            replies,
            0,
        ),
    )
}

/// Linking the shader objects `vertex` and `fragment`, with `replies` coming
/// back.
pub open spec fn linking(vertex: u32, fragment: u32, replies: Seq<Reply>) -> Trace<
    GlCall,
    Linked,
> {
    started(
        GlCall::CreateProgram,
        run(
            |job: Linkage, reply: Reply| job.expects(reply),
            |job: Linkage, reply: Reply| job.step(reply),
            Linkage::Creating { vertex, fragment },
            replies,
            0,
        ),
    )
}

/// The run of a build from `phase` on `replies[from..]`.
pub open spec fn build_run(phase: BuildPhase, replies: Seq<Reply>, from: int) -> Trace<
    Request,
    Built,
> {
    run(
        |phase: BuildPhase, reply: Reply| phase.expects(reply),
        |phase: BuildPhase, reply: Reply| phase.step(reply),
        phase,
        replies,
        from,
    )
}

/// Building a program from the files at `vertex_path` and `fragment_path`,
/// with `replies` coming back.
pub open spec fn building(vertex_path: String, fragment_path: String, replies: Seq<Reply>) -> Trace<
    Request,
    Built,
> {
    started(
        Request::ReadFile { path: vertex_path },
        build_run(BuildPhase::ReadingVertex { fragment_path }, replies, 0),
    )
}

} // verus!
