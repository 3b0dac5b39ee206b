//! What a job for the media tool achieves over a whole run.
//!
//! The machine of [`crate::tool`] is run from its first step to its last
//! against a description of the surroundings: whether the tool can be
//! located, which files exist, and how creating a directory and running the
//! tool will end.

use crate::tool::{
    job_next, JobActionView, JobEventView, JobStateView, ToolJobView, ToolOutputView,
};
use vstd::prelude::*;

verus! {

/// How the world outside will answer during one job.
pub struct ToolSurroundings {
    /// Where the media tool is, or why it is nowhere.
    pub located: Result<Seq<char>, Seq<char>>,
    /// The paths that exist.
    pub present: Set<Seq<char>>,
    /// How creating a directory ends.
    pub prepared: Result<(), Seq<char>>,
    /// How running the tool ends.
    pub ran: Result<ToolOutputView, Seq<char>>,
}

/// The event that an action leads to.
pub open spec fn job_answer(world: ToolSurroundings, action: JobActionView) -> JobEventView {
    match action {
        JobActionView::Locate => JobEventView::Located(world.located),
        JobActionView::Probe(path) => JobEventView::Probed(world.present.contains(path)),
        JobActionView::CreateDirs(_) => JobEventView::Prepared(world.prepared),
        JobActionView::Run { .. } => JobEventView::Ran(world.ran),
        JobActionView::Finish { .. } => JobEventView::Begin,
    }
}

/// How a job ended.
pub struct JobEnding {
    /// What the job hands back, or the reason of its failure.
    pub result: Result<Seq<char>, Seq<char>>,
    /// The files that are deleted at the end.
    pub discard: Seq<Seq<char>>,
    /// Whether the tool was started.
    pub started: bool,
}

/// The rest of a job: performs `action` and whatever follows, for at most
/// `fuel` actions before the last.
pub open spec fn run_job_from(
    job: ToolJobView,
    world: ToolSurroundings,
    state: JobStateView,
    action: JobActionView,
    started: bool,
    fuel: nat,
) -> Option<JobEnding>
    decreases fuel,
{
    match action {
        JobActionView::Finish { result, discard } => Some(JobEnding { result, discard, started }),
        _ => if fuel == 0 {
            None
        } else {
            let following = job_next(job, state, job_answer(world, action));
            run_job_from(
                job,
                world,
                following.0,
                following.1,
                started || action is Run,
                (fuel - 1) as nat,
            )
        },
    }
}

/// A whole job, from its first step. It performs at most five actions:
/// locating the tool, two probes, creating a directory and running the tool.
pub open spec fn run_job(job: ToolJobView, world: ToolSurroundings) -> Option<JobEnding> {
    let first = job_next(job, JobStateView::Start, JobEventView::Begin);
    run_job_from(job, world, first.0, first.1, false, 5)
}

/// Every job ends, whatever it is and however the world answers. A job that
/// fails deletes nothing, and a job that hands back a result has run the
/// tool to a successful end.
pub proof fn lemma_job_ends(job: ToolJobView, world: ToolSurroundings)
    ensures
        run_job(job, world) matches Some(end) && {
            &&& end.result is Err ==> end.discard.len() == 0
            &&& end.result is Ok ==> end.started && world.ran is Ok && world.ran->Ok_0.success
        },
{
    reveal_with_fuel(run_job_from, 6);
}

/// Where the media tool cannot be located, the job fails with the reason
/// that the search gave. The tool is not started and nothing is deleted.
pub proof fn lemma_unlocated_tool_fails(job: ToolJobView, world: ToolSurroundings)
    requires
        world.located is Err,
    ensures
        run_job(job, world) == Some(
            JobEnding { result: Err(world.located->Err_0), discard: Seq::empty(), started: false },
        ),
{
    reveal_with_fuel(run_job_from, 6);
}

/// A mux whose tool is located, whose two inputs exist, whose output
/// directory can be made and whose tool run succeeds hands back the path of
/// the output and deletes exactly the two inputs.
pub proof fn lemma_merge_succeeds(
    video: Seq<char>,
    audio: Seq<char>,
    output: Seq<char>,
    world: ToolSurroundings,
)
    requires
        world.located is Ok,
        world.present.contains(video),
        world.present.contains(audio),
        world.prepared is Ok,
        world.ran is Ok,
        world.ran->Ok_0.success,
    ensures
        run_job(ToolJobView::Merge { video, audio, output }, world) == Some(
            JobEnding { result: Ok(output), discard: seq![video, audio], started: true },
        ),
{
    reveal_with_fuel(run_job_from, 6);
}

/// A mux reports the first input that does not exist, the video before the
/// audio, and does not start the tool.
pub proof fn lemma_merge_reports_missing_input(
    video: Seq<char>,
    audio: Seq<char>,
    output: Seq<char>,
    world: ToolSurroundings,
)
    requires
        world.located is Ok,
        !world.present.contains(video) || !world.present.contains(audio),
    ensures
        run_job(ToolJobView::Merge { video, audio, output }, world) == Some(
            JobEnding {
                result: Err(
                    if !world.present.contains(video) {
                        "视频文件不存在: "@ + video
                    } else {
                        "音频文件不存在: "@ + audio
                    },
                ),
                discard: Seq::empty(),
                started: false,
            },
        ),
{
    reveal_with_fuel(run_job_from, 6);
}

/// A tool that runs and reports a failure makes the job fail with what the
/// tool wrote to its error stream.
pub proof fn lemma_tool_failure_is_reported(job: ToolJobView, world: ToolSurroundings)
    requires
        world.ran is Ok,
        !world.ran->Ok_0.success,
    ensures
        run_job(job, world) matches Some(end) && end.result is Err && end.discard.len() == 0 && (
        end.started ==> end.result->Err_0 == crate::tool::run_failure_prefix(job)
            + world.ran->Ok_0.stderr),
{
    reveal_with_fuel(run_job_from, 6);
}

} // verus!
