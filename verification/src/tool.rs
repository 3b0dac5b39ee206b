//! Jobs for the media tool: muxing two streams into one file, converting a
//! video to another container, extracting the audio of a video, and
//! describing a media file.
//!
//! Every job goes the same way. The tool is located. Each input is checked
//! to exist, in order, and the first that is missing is reported by name.
//! The directory of the output is created where it is missing. The tool is
//! run, and what it wrote to its error stream is the detail of a failure.
//!
//! A successful mux deletes its two inputs, whether or not the deleting
//! works. A failed job of any kind deletes nothing, so that the caller can
//! fall back on the inputs.
//!
//! [`job_step`] decides; the caller probes, creates directories, runs the
//! tool and reports.

use crate::ffmpeg::{
    arg_views, convert_args, convert_args_of, extract_args, extract_args_of, merge_args,
    merge_args_of, probe_args, probe_args_of,
};
use crate::paths::{join_path, joined_path, parent_of, parent_path};
use crate::text::join2;
use crate::types::text_of;
use vstd::prelude::*;

verus! {

/// What the media tool is asked to do.
#[derive(Debug, Clone, PartialEq, Eq)]
pub enum ToolJob {
    /// Mux the streams of `video` and `audio` into `output`.
    Merge { video: String, audio: String, output: String },
    /// Convert `input` to the container named by `format`, as `output`.
    Convert { input: String, output: String, format: String },
    /// Extract the audio of `video` in the format named by `format`, as
    /// `audio`.
    ExtractAudio { video: String, audio: String, format: String },
    /// Describe `video`.
    Probe { video: String },
}

/// What a [`ToolJob`] holds, as mathematical values.
pub enum ToolJobView {
    Merge { video: Seq<char>, audio: Seq<char>, output: Seq<char> },
    Convert { input: Seq<char>, output: Seq<char>, format: Seq<char> },
    ExtractAudio { video: Seq<char>, audio: Seq<char>, format: Seq<char> },
    Probe { video: Seq<char> },
}

impl View for ToolJob {
    type V = ToolJobView;

    open spec fn view(&self) -> ToolJobView {
        match self {
            ToolJob::Merge { video, audio, output } => ToolJobView::Merge {
                video: video@,
                audio: audio@,
                output: output@,
            },
            ToolJob::Convert { input, output, format } => ToolJobView::Convert {
                input: input@,
                output: output@,
                format: format@,
            },
            ToolJob::ExtractAudio { video, audio, format } => ToolJobView::ExtractAudio {
                video: video@,
                audio: audio@,
                format: format@,
            },
            ToolJob::Probe { video } => ToolJobView::Probe { video: video@ },
        }
    }
}

/// How a run of the tool ended. The two streams are what the tool wrote, with
/// anything that is not valid text replaced.
#[derive(Debug, Clone, PartialEq, Eq)]
pub struct ToolOutput {
    /// Whether the tool reported success.
    pub success: bool,
    pub stdout: String,
    pub stderr: String,
}

/// What a [`ToolOutput`] holds, as mathematical values.
pub struct ToolOutputView {
    pub success: bool,
    pub stdout: Seq<char>,
    pub stderr: Seq<char>,
}

impl View for ToolOutput {
    type V = ToolOutputView;

    open spec fn view(&self) -> ToolOutputView {
        ToolOutputView { success: self.success, stdout: self.stdout@, stderr: self.stderr@ }
    }
}

/// Where a job stands.
#[derive(Debug, Clone, PartialEq, Eq)]
pub enum JobState {
    /// Nothing has been done yet.
    Start,
    /// The tool is being located.
    Locating,
    /// The caller is looking whether the input at `index` exists.
    CheckingInput { tool: String, index: usize },
    /// The directory of the output is being created.
    PreparingOutput { tool: String },
    /// The tool is running.
    Running,
    /// The job ended well.
    Done,
    /// The job failed.
    Failed,
}

/// What a [`JobState`] holds, as mathematical values.
pub enum JobStateView {
    Start,
    Locating,
    CheckingInput { tool: Seq<char>, index: usize },
    PreparingOutput { tool: Seq<char> },
    Running,
    Done,
    Failed,
}

impl View for JobState {
    type V = JobStateView;

    open spec fn view(&self) -> JobStateView {
        match self {
            JobState::Start => JobStateView::Start,
            JobState::Locating => JobStateView::Locating,
            JobState::CheckingInput { tool, index } => JobStateView::CheckingInput {
                tool: tool@,
                index: *index,
            },
            JobState::PreparingOutput { tool } => JobStateView::PreparingOutput { tool: tool@ },
            JobState::Running => JobStateView::Running,
            JobState::Done => JobStateView::Done,
            JobState::Failed => JobStateView::Failed,
        }
    }
}

/// What the caller reports back.
#[derive(Debug, PartialEq, Eq)]
pub enum JobEvent {
    /// The job is to begin.
    Begin,
    /// The search for the tool ended: with its path, or with the reason why
    /// there is none.
    Located(Result<String, String>),
    /// Whether the probed path exists.
    Probed(bool),
    /// Creating the directory ended: well, or with the detail of its failure.
    Prepared(Result<(), String>),
    /// The tool ran to its end, or could not be started.
    Ran(Result<ToolOutput, String>),
}

/// What a [`JobEvent`] holds, as mathematical values.
pub enum JobEventView {
    Begin,
    Located(Result<Seq<char>, Seq<char>>),
    Probed(bool),
    Prepared(Result<(), Seq<char>>),
    Ran(Result<ToolOutputView, Seq<char>>),
}

impl View for JobEvent {
    type V = JobEventView;

    open spec fn view(&self) -> JobEventView {
        match self {
            JobEvent::Begin => JobEventView::Begin,
            JobEvent::Located(r) => JobEventView::Located(
                match r {
                    Ok(p) => Ok(p@),
                    Err(e) => Err(e@),
                },
            ),
            JobEvent::Probed(b) => JobEventView::Probed(*b),
            JobEvent::Prepared(r) => JobEventView::Prepared(
                match r {
                    Ok(_) => Ok(()),
                    Err(e) => Err(e@),
                },
            ),
            JobEvent::Ran(r) => JobEventView::Ran(
                match r {
                    Ok(out) => Ok(out@),
                    Err(e) => Err(e@),
                },
            ),
        }
    }
}

/// What the caller is to do next.
#[derive(Debug, PartialEq, Eq)]
pub enum JobAction {
    /// Locate the media tool, then report `Located`.
    Locate,
    /// Look whether the path exists, then report `Probed`.
    Probe(String),
    /// Create the directory and its ancestors where they are missing, then
    /// report `Prepared`.
    CreateDirs(String),
    /// Run the program with the arguments and wait for it, then report `Ran`.
    Run { program: String, args: Vec<String> },
    /// The job is over. Delete the files of `discard`, whether or not that
    /// works; `result` is the job's result.
    Finish { result: Result<String, String>, discard: Vec<String> },
}

/// What a [`JobAction`] holds, as mathematical values.
pub enum JobActionView {
    Locate,
    Probe(Seq<char>),
    CreateDirs(Seq<char>),
    Run { program: Seq<char>, args: Seq<Seq<char>> },
    Finish { result: Result<Seq<char>, Seq<char>>, discard: Seq<Seq<char>> },
}

impl View for JobAction {
    type V = JobActionView;

    open spec fn view(&self) -> JobActionView {
        match self {
            JobAction::Locate => JobActionView::Locate,
            JobAction::Probe(p) => JobActionView::Probe(p@),
            JobAction::CreateDirs(p) => JobActionView::CreateDirs(p@),
            JobAction::Run { program, args } => JobActionView::Run {
                program: program@,
                args: arg_views(args@),
            },
            JobAction::Finish { result, discard } => JobActionView::Finish {
                result: match result {
                    Ok(p) => Ok(p@),
                    Err(e) => Err(e@),
                },
                discard: arg_views(discard@),
            },
        }
    }
}

/// The files that a job reads, in the order in which they are checked.
pub open spec fn job_inputs(job: ToolJobView) -> Seq<Seq<char>> {
    match job {
        ToolJobView::Merge { video, audio, .. } => seq![video, audio],
        ToolJobView::Convert { input, .. } => seq![input],
        ToolJobView::ExtractAudio { video, .. } => seq![video],
        ToolJobView::Probe { video } => seq![video],
    }
}

/// The words that open the report of a missing input.
pub open spec fn missing_input_prefix(job: ToolJobView, index: int) -> Seq<char> {
    match job {
        ToolJobView::Merge { .. } => if index == 1 {
            "音频文件不存在: "@
        } else {
            "视频文件不存在: "@
        },
        ToolJobView::Convert { .. } => "输入文件不存在: "@,
        _ => "视频文件不存在: "@,
    }
}

/// The file that a job writes, if it writes one.
pub open spec fn job_output(job: ToolJobView) -> Option<Seq<char>> {
    match job {
        ToolJobView::Merge { output, .. } => Some(output),
        ToolJobView::Convert { output, .. } => Some(output),
        ToolJobView::ExtractAudio { audio, .. } => Some(audio),
        ToolJobView::Probe { .. } => None,
    }
}

/// The name of the probe tool, which lives beside the media tool.
pub open spec fn probe_tool_name() -> Seq<char> {
    "ffprobe"@
}

/// The program and arguments that describe a media file, given the probe
/// tool; or the reason why there is no probe tool.
pub open spec fn probe_command(video: Seq<char>, program: Option<Seq<char>>) -> Result<
    (Seq<char>, Seq<Seq<char>>),
    Seq<char>,
> {
    match program {
        Some(path) => Ok((path, probe_args_of(video))),
        None => Err("无法获取ffmpeg父目录"@),
    }
}

/// The probe tool that lives beside the media tool, if the media tool has a
/// directory.
pub open spec fn probe_tool_of(tool: Seq<char>) -> Option<Seq<char>> {
    match parent_path(tool) {
        Some(dir) => Some(joined_path(dir, probe_tool_name())),
        None => None,
    }
}

/// The program and arguments of a job, given where the media tool is; or the
/// reason why the job cannot be run: a format that is not supported, or a
/// media tool without a directory to find the probe tool in.
pub open spec fn job_command(job: ToolJobView, tool: Seq<char>) -> Result<
    (Seq<char>, Seq<Seq<char>>),
    Seq<char>,
> {
    match job {
        ToolJobView::Merge { video, audio, output } => Ok(
            (tool, merge_args_of(video, audio, output)),
        ),
        ToolJobView::Convert { input, output, format } => match convert_args_of(
            format,
            input,
            output,
        ) {
            Some(args) => Ok((tool, args)),
            None => Err("不支持的格式: "@ + format),
        },
        ToolJobView::ExtractAudio { video, audio, format } => match extract_args_of(
            format,
            video,
            audio,
        ) {
            Some(args) => Ok((tool, args)),
            None => Err("不支持的音频格式: "@ + format),
        },
        ToolJobView::Probe { video } => probe_command(video, probe_tool_of(tool)),
    }
}

/// The words that open the report of a tool that could not be started.
pub open spec fn spawn_failure_prefix(job: ToolJobView) -> Seq<char> {
    match job {
        ToolJobView::Probe { .. } => "执行ffprobe失败: "@,
        _ => "执行ffmpeg失败: "@,
    }
}

/// The words that open the report of a tool that ran and failed.
pub open spec fn run_failure_prefix(job: ToolJobView) -> Seq<char> {
    match job {
        ToolJobView::Merge { .. } => "ffmpeg合并失败: "@,
        ToolJobView::Convert { .. } => "ffmpeg转换失败: "@,
        ToolJobView::ExtractAudio { .. } => "ffmpeg提取音频失败: "@,
        ToolJobView::Probe { .. } => "获取视频信息失败: "@,
    }
}

/// The words that open the report of an output directory that could not be
/// created.
pub open spec fn prepare_failure_prefix() -> Seq<char> {
    "创建输出目录失败: "@
}

/// The reason given where the caller reports an event that the state does
/// not wait for.
pub open spec fn unexpected_job_event() -> Seq<char> {
    "收到了意外的事件"@
}

/// What a job that succeeded hands back: the path of its output, or for a
/// description what the probe tool printed.
pub open spec fn job_result(job: ToolJobView, output: ToolOutputView) -> Seq<char> {
    match job {
        ToolJobView::Merge { output: path, .. } => path,
        ToolJobView::Convert { output: path, .. } => path,
        ToolJobView::ExtractAudio { audio, .. } => audio,
        ToolJobView::Probe { .. } => output.stdout,
    }
}

/// The files that a job that succeeded deletes: the two inputs of a mux.
pub open spec fn job_discards(job: ToolJobView) -> Seq<Seq<char>> {
    match job {
        ToolJobView::Merge { video, audio, .. } => seq![video, audio],
        _ => Seq::empty(),
    }
}

/// The machine's answer where the job fails. Nothing is deleted.
pub open spec fn job_fail(reason: Seq<char>) -> (JobStateView, JobActionView) {
    (JobStateView::Failed, JobActionView::Finish { result: Err(reason), discard: Seq::empty() })
}

/// The machine's answer once the inputs are checked and the output's
/// directory is there: the tool is run, unless the job has no command.
pub open spec fn launch(job: ToolJobView, tool: Seq<char>) -> (JobStateView, JobActionView) {
    match job_command(job, tool) {
        Ok((program, args)) => (JobStateView::Running, JobActionView::Run { program, args }),
        Err(reason) => job_fail(reason),
    }
}

/// The machine's answer once the inputs are checked, given the directory
/// that has to be there: that directory is created, or where there is none
/// the tool is run at once.
pub open spec fn prepare_in(job: ToolJobView, tool: Seq<char>, dir: Option<Seq<char>>) -> (
    JobStateView,
    JobActionView,
) {
    match dir {
        Some(dir) => (JobStateView::PreparingOutput { tool }, JobActionView::CreateDirs(dir)),
        None => launch(job, tool),
    }
}

/// The directory that has to be there before a job is run: the directory of
/// its output, where the job has an output and the output a directory.
pub open spec fn output_dir(job: ToolJobView) -> Option<Seq<char>> {
    match job_output(job) {
        Some(output) => parent_path(output),
        None => None,
    }
}

/// The machine's answer once the inputs are checked.
pub open spec fn prepare(job: ToolJobView, tool: Seq<char>) -> (JobStateView, JobActionView) {
    prepare_in(job, tool, output_dir(job))
}

/// The machine's answer once the inputs before `index` are checked.
pub open spec fn check_input(job: ToolJobView, tool: Seq<char>, index: int) -> (
    JobStateView,
    JobActionView,
) {
    if 0 <= index < job_inputs(job).len() {
        (
            JobStateView::CheckingInput { tool, index: index as usize },
            JobActionView::Probe(job_inputs(job)[index]),
        )
    } else {
        prepare(job, tool)
    }
}

/// The machine: the state and action that follow a state and an event. An
/// event that the state does not wait for makes the job fail.
pub open spec fn job_next(job: ToolJobView, state: JobStateView, event: JobEventView) -> (
    JobStateView,
    JobActionView,
) {
    match (state, event) {
        (JobStateView::Start, JobEventView::Begin) => (
            JobStateView::Locating,
            JobActionView::Locate,
        ),
        (JobStateView::Locating, JobEventView::Located(Ok(tool))) => check_input(job, tool, 0),
        (JobStateView::Locating, JobEventView::Located(Err(reason))) => job_fail(reason),
        (JobStateView::CheckingInput { tool, index }, JobEventView::Probed(exists)) => {
            if index >= job_inputs(job).len() {
                job_fail(unexpected_job_event())
            } else if exists {
                check_input(job, tool, index + 1)
            } else {
                job_fail(missing_input_prefix(job, index as int) + job_inputs(job)[index as int])
            }
        },
        (JobStateView::PreparingOutput { tool }, JobEventView::Prepared(Ok(_))) => launch(
            job,
            tool,
        ),
        (JobStateView::PreparingOutput { .. }, JobEventView::Prepared(Err(e))) => job_fail(
            prepare_failure_prefix() + e,
        ),
        (JobStateView::Running, JobEventView::Ran(Ok(output))) => {
            if output.success {
                (
                    JobStateView::Done,
                    JobActionView::Finish {
                        result: Ok(job_result(job, output)),
                        discard: job_discards(job),
                    },
                )
            } else {
                job_fail(run_failure_prefix(job) + output.stderr)
            }
        },
        (JobStateView::Running, JobEventView::Ran(Err(e))) => job_fail(
            spawn_failure_prefix(job) + e,
        ),
        _ => job_fail(unexpected_job_event()),
    }
}

fn failing(reason: String) -> (r: (JobState, JobAction))
    ensures
        (r.0@, r.1@) == job_fail(reason@),
{
    let discard: Vec<String> = Vec::new();
    assert(arg_views(discard@) =~= Seq::<Seq<char>>::empty());
    (JobState::Failed, JobAction::Finish { result: Err(reason), discard })
}

/// The input of a job that is checked at the given turn.
pub fn job_input(job: &ToolJob, index: usize) -> (input: Option<&str>)
    ensures
        match input {
            Some(path) => index < job_inputs(job@).len() && path@ == job_inputs(job@)[index as int],
            None => index >= job_inputs(job@).len(),
        },
{
    match job {
        ToolJob::Merge { video, audio, .. } => {
            if index == 0 {
                Some(video.as_str())
            } else if index == 1 {
                Some(audio.as_str())
            } else {
                None
            }
        },
        ToolJob::Convert { input, .. } => {
            if index == 0 {
                Some(input.as_str())
            } else {
                None
            }
        },
        ToolJob::ExtractAudio { video, .. } => {
            if index == 0 {
                Some(video.as_str())
            } else {
                None
            }
        },
        ToolJob::Probe { video } => {
            if index == 0 {
                Some(video.as_str())
            } else {
                None
            }
        },
    }
}

/// The step that runs the probe tool on a media file, given the probe tool.
pub fn start_probe(video: &str, program: Option<String>) -> (r: (JobState, JobAction))
    ensures
        (r.0@, r.1@) == (match probe_command(video@, text_of(program)) {
            Ok((program, args)) => (JobStateView::Running, JobActionView::Run { program, args }),
            Err(reason) => job_fail(reason),
        }),
{
    match program {
        Some(program) => {
            let args = probe_args(video);
            (JobState::Running, JobAction::Run { program, args })
        },
        None => failing(String::from_str("无法获取ffmpeg父目录")),
    }
}

/// The step that runs the tool for a job.
pub fn start_tool(job: &ToolJob, tool: String) -> (r: (JobState, JobAction))
    ensures
        (r.0@, r.1@) == launch(job@, tool@),
{
    match job {
        ToolJob::Merge { video, audio, output } => {
            let args = merge_args(video.as_str(), audio.as_str(), output.as_str());
            (JobState::Running, JobAction::Run { program: tool, args })
        },
        ToolJob::Convert { input, output, format } => {
            match convert_args(format.as_str(), input.as_str(), output.as_str()) {
                Some(args) => (JobState::Running, JobAction::Run { program: tool, args }),
                None => failing(join2("不支持的格式: ", format.as_str())),
            }
        },
        ToolJob::ExtractAudio { video, audio, format } => {
            match extract_args(format.as_str(), video.as_str(), audio.as_str()) {
                Some(args) => (JobState::Running, JobAction::Run { program: tool, args }),
                None => failing(join2("不支持的音频格式: ", format.as_str())),
            }
        },
        ToolJob::Probe { video } => {
            let program = match parent_of(tool.as_str()) {
                Some(dir) => Some(join_path(dir.as_str(), "ffprobe")),
                None => None,
            };
            start_probe(video.as_str(), program)
        },
    }
}

/// The step that follows the check of the inputs, given the directory that
/// has to be there.
pub fn prepare_output_in(job: &ToolJob, tool: String, dir: Option<String>) -> (r: (
    JobState,
    JobAction,
))
    ensures
        (r.0@, r.1@) == prepare_in(job@, tool@, text_of(dir)),
{
    match dir {
        Some(dir) => (JobState::PreparingOutput { tool }, JobAction::CreateDirs(dir)),
        None => start_tool(job, tool),
    }
}

fn prepare_output(job: &ToolJob, tool: String) -> (r: (JobState, JobAction))
    ensures
        (r.0@, r.1@) == prepare(job@, tool@),
{
    let output: Option<&str> = match job {
        ToolJob::Merge { output, .. } => Some(output.as_str()),
        ToolJob::Convert { output, .. } => Some(output.as_str()),
        ToolJob::ExtractAudio { audio, .. } => Some(audio.as_str()),
        ToolJob::Probe { .. } => None,
    };
    let dir = match output {
        Some(path) => parent_of(path),
        None => None,
    };
    prepare_output_in(job, tool, dir)
}

fn check_next_input(job: &ToolJob, tool: String, index: usize) -> (r: (JobState, JobAction))
    ensures
        (r.0@, r.1@) == check_input(job@, tool@, index as int),
{
    match job_input(job, index) {
        Some(path) => (
            JobState::CheckingInput { tool, index },
            JobAction::Probe(String::from_str(path)),
        ),
        None => prepare_output(job, tool),
    }
}

fn missing_input(job: &ToolJob, index: usize, path: &str) -> (reason: String)
    ensures
        reason@ == missing_input_prefix(job@, index as int) + path@,
{
    match job {
        ToolJob::Merge { .. } => {
            if index == 1 {
                join2("音频文件不存在: ", path)
            } else {
                join2("视频文件不存在: ", path)
            }
        },
        ToolJob::Convert { .. } => join2("输入文件不存在: ", path),
        _ => join2("视频文件不存在: ", path),
    }
}

fn finish_run(job: &ToolJob, output: ToolOutput) -> (r: (JobState, JobAction))
    ensures
        (r.0@, r.1@) == job_next(job@, JobStateView::Running, JobEventView::Ran(Ok(output@))),
{
    if output.success {
        let mut discard: Vec<String> = Vec::new();
        assert(arg_views(discard@) =~= Seq::<Seq<char>>::empty());
        let result = match job {
            ToolJob::Merge { video, audio, output: path } => {
                discard.push(video.clone());
                discard.push(audio.clone());
                assert(arg_views(discard@) =~= seq![video@, audio@]);
                path.clone()
            },
            ToolJob::Convert { output: path, .. } => path.clone(),
            ToolJob::ExtractAudio { audio, .. } => audio.clone(),
            ToolJob::Probe { .. } => output.stdout,
        };
        (JobState::Done, JobAction::Finish { result: Ok(result), discard })
    } else {
        match job {
            ToolJob::Merge { .. } => failing(join2("ffmpeg合并失败: ", output.stderr.as_str())),
            ToolJob::Convert { .. } => failing(join2("ffmpeg转换失败: ", output.stderr.as_str())),
            ToolJob::ExtractAudio { .. } => failing(
                join2("ffmpeg提取音频失败: ", output.stderr.as_str()),
            ),
            ToolJob::Probe { .. } => failing(join2("获取视频信息失败: ", output.stderr.as_str())),
        }
    }
}

/// Advances a job by one event. The first call takes [`JobState::Start`] and
/// [`JobEvent::Begin`].
pub fn job_step(job: &ToolJob, state: JobState, event: JobEvent) -> (r: (JobState, JobAction))
    ensures
        (r.0@, r.1@) == job_next(job@, state@, event@),
{
    match (state, event) {
        (JobState::Start, JobEvent::Begin) => (JobState::Locating, JobAction::Locate),
        (JobState::Locating, JobEvent::Located(Ok(tool))) => check_next_input(job, tool, 0),
        (JobState::Locating, JobEvent::Located(Err(reason))) => failing(reason),
        (JobState::CheckingInput { tool, index }, JobEvent::Probed(exists)) => {
            match job_input(job, index) {
                None => failing(String::from_str("收到了意外的事件")),
                Some(path) => {
                    if exists {
                        check_next_input(job, tool, index + 1)
                    } else {
                        failing(missing_input(job, index, path))
                    }
                },
            }
        },
        (JobState::PreparingOutput { tool }, JobEvent::Prepared(Ok(_))) => start_tool(job, tool),
        (JobState::PreparingOutput { .. }, JobEvent::Prepared(Err(e))) => failing(
            join2("创建输出目录失败: ", e.as_str()),
        ),
        (JobState::Running, JobEvent::Ran(Ok(output))) => finish_run(job, output),
        (JobState::Running, JobEvent::Ran(Err(e))) => {
            match job {
                ToolJob::Probe { .. } => failing(join2("执行ffprobe失败: ", e.as_str())),
                _ => failing(join2("执行ffmpeg失败: ", e.as_str())),
            }
        },
        _ => failing(String::from_str("收到了意外的事件")),
    }
}

} // verus!
