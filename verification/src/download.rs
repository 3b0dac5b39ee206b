//! The download orchestrator: the state machine that takes a request from
//! its first fetch to one finished file, or to a failure.
//!
//! The machine performs nothing itself. [`step`] takes the state it is in
//! and what just happened, and answers with the next state and the action to
//! perform. The caller performs the action and comes back with the event
//! that tells how it went, until the action is [`DownloadAction::Finish`].
//!
//! The stream files are fetched one after the other, video first. A fetch
//! that fails ends the download. Once the fetches are through, the machine
//! asks which of the two files are really there and goes by that alone; a
//! file counts as soon as it exists, whatever its size. Video alone is
//! renamed to the finished file, audio alone to a finished audio file, and
//! both are handed to the muxer. A muxer that fails never costs the download:
//! the audio file is discarded and the video file becomes the finished file.

use crate::fetch::{
    fetch_error_kind, fetch_error_message, stream_request, stream_request_of, FailureKind,
    FetchError, FetchErrorView, FetchRequest, FetchRequestView, StreamKind,
};
use crate::paths::{DownloadTarget, DownloadTargetView};
use crate::text::{debug_quoted, join2, quote};
use crate::tool::{ToolJob, ToolJobView};
use crate::types::{AudioStream, AudioStreamView, VideoData, VideoStream, VideoStreamView};
use vstd::prelude::*;

verus! {

/// One download: the video it is for, the two streams chosen for it, and the
/// login that the platform asks for.
#[derive(Debug, Clone, PartialEq, Eq)]
pub struct DownloadRequest {
    pub title: String,
    pub bvid: String,
    pub video: VideoStream,
    pub audio: AudioStream,
    pub cookies: String,
}

/// What a [`DownloadRequest`] holds, as mathematical values.
pub struct DownloadRequestView {
    pub title: Seq<char>,
    pub bvid: Seq<char>,
    pub video: VideoStreamView,
    pub audio: AudioStreamView,
    pub cookies: Seq<char>,
}

impl View for DownloadRequest {
    type V = DownloadRequestView;

    open spec fn view(&self) -> DownloadRequestView {
        DownloadRequestView {
            title: self.title@,
            bvid: self.bvid@,
            video: self.video@,
            audio: self.audio@,
            cookies: self.cookies@,
        }
    }
}

impl DownloadRequest {
    /// The request to download the given streams of a video.
    pub fn new(
        video_data: &VideoData,
        video_stream: VideoStream,
        audio_stream: AudioStream,
        cookies: String,
    ) -> (request: DownloadRequest)
        ensures
            request@ == (DownloadRequestView {
                title: video_data.title@,
                bvid: video_data.bvid@,
                video: video_stream@,
                audio: audio_stream@,
                cookies: cookies@,
            }),
    {
        DownloadRequest {
            title: video_data.title.clone(),
            bvid: video_data.bvid.clone(),
            video: video_stream,
            audio: audio_stream,
            cookies,
        }
    }
}

/// The part that a file plays in a download.
#[derive(Debug, Clone, Copy, PartialEq, Eq, Structural)]
pub enum FileRole {
    /// The fetched video stream.
    VideoPart,
    /// The fetched audio stream.
    AudioPart,
    /// The finished file that holds video.
    Final,
    /// The finished file where only audio could be had.
    AudioFinal,
}

/// The path of the file that plays a part.
pub open spec fn path_of(target: DownloadTargetView, role: FileRole) -> Seq<char> {
    match role {
        FileRole::VideoPart => target.video_path,
        FileRole::AudioPart => target.audio_path,
        FileRole::Final => target.final_path,
        FileRole::AudioFinal => target.audio_final_path,
    }
}

/// The path of the file that plays a part.
pub fn role_path(target: &DownloadTarget, role: FileRole) -> (path: &str)
    ensures
        path@ == path_of(target@, role),
{
    match role {
        FileRole::VideoPart => target.video_path.as_str(),
        FileRole::AudioPart => target.audio_path.as_str(),
        FileRole::Final => target.final_path.as_str(),
        FileRole::AudioFinal => target.audio_final_path.as_str(),
    }
}

/// The job that muxes the two parts of a download into its finished file.
pub open spec fn merge_job_of(target: DownloadTargetView) -> ToolJobView {
    ToolJobView::Merge {
        video: target.video_path,
        audio: target.audio_path,
        output: target.final_path,
    }
}

/// The job that performs [`DownloadAction::Mux`].
pub fn merge_job(target: &DownloadTarget) -> (job: ToolJob)
    ensures
        job@ == merge_job_of(target@),
{
    ToolJob::Merge {
        video: target.video_path.clone(),
        audio: target.audio_path.clone(),
        output: target.final_path.clone(),
    }
}

/// Where a download stands.
#[derive(Debug, Clone, Copy, PartialEq, Eq, Structural)]
pub enum DownloadState {
    /// Nothing has been done yet.
    Start,
    /// The video stream is being fetched.
    FetchingVideo,
    /// The audio stream is being fetched.
    FetchingAudio,
    /// The caller is looking which stream files exist.
    Inspecting,
    /// The video file is being renamed to the finished file; `degraded`
    /// where this follows a failed attempt to mux.
    RenamingVideo { degraded: bool },
    /// The audio file is being renamed to the finished audio file.
    RenamingAudio,
    /// The muxer is combining the two files.
    Muxing,
    /// The download ended with a file.
    Done,
    /// The download ended without one.
    Failed,
}

/// How a download ended.
#[derive(Debug, Clone, PartialEq, Eq)]
pub enum DownloadOutcome {
    /// The finished file holds the video stream alone; `degraded` where
    /// audio was fetched too but could not be muxed in.
    VideoOnly { path: String, degraded: bool },
    /// The finished file holds the audio stream alone.
    AudioOnly { path: String },
    /// The finished file holds both streams.
    Muxed { path: String },
    /// There is no finished file.
    Failed { kind: FailureKind, reason: String },
}

/// What a [`DownloadOutcome`] holds, as mathematical values.
pub enum DownloadOutcomeView {
    VideoOnly { path: Seq<char>, degraded: bool },
    AudioOnly { path: Seq<char> },
    Muxed { path: Seq<char> },
    Failed { kind: FailureKind, reason: Seq<char> },
}

impl View for DownloadOutcome {
    type V = DownloadOutcomeView;

    open spec fn view(&self) -> DownloadOutcomeView {
        match self {
            DownloadOutcome::VideoOnly { path, degraded } => DownloadOutcomeView::VideoOnly {
                path: path@,
                degraded: *degraded,
            },
            DownloadOutcome::AudioOnly { path } => DownloadOutcomeView::AudioOnly { path: path@ },
            DownloadOutcome::Muxed { path } => DownloadOutcomeView::Muxed { path: path@ },
            DownloadOutcome::Failed { kind, reason } => DownloadOutcomeView::Failed {
                kind: *kind,
                reason: reason@,
            },
        }
    }
}

/// What the caller reports back.
#[derive(Debug, PartialEq, Eq)]
pub enum DownloadEvent {
    /// The download is to begin.
    Begin,
    /// A fetch ended: with the number of bytes written, or with a failure.
    Fetched(Result<u64, FetchError>),
    /// The caller looked for the two stream files.
    Inspected { video_exists: bool, audio_exists: bool },
    /// A rename ended: well, or with the detail of its failure.
    Renamed(Result<(), String>),
    /// The muxer ended: with the path of its output, or with a failure.
    Muxed(Result<String, String>),
}

/// What a [`DownloadEvent`] holds, as mathematical values.
pub enum DownloadEventView {
    Begin,
    Fetched(Result<u64, FetchErrorView>),
    Inspected { video_exists: bool, audio_exists: bool },
    Renamed(Result<(), Seq<char>>),
    Muxed(Result<Seq<char>, Seq<char>>),
}

impl View for DownloadEvent {
    type V = DownloadEventView;

    open spec fn view(&self) -> DownloadEventView {
        match self {
            DownloadEvent::Begin => DownloadEventView::Begin,
            DownloadEvent::Fetched(r) => DownloadEventView::Fetched(
                match r {
                    Ok(n) => Ok(*n),
                    Err(e) => Err(e@),
                },
            ),
            DownloadEvent::Inspected { video_exists, audio_exists } => DownloadEventView::Inspected {
                video_exists: *video_exists,
                audio_exists: *audio_exists,
            },
            DownloadEvent::Renamed(r) => DownloadEventView::Renamed(
                match r {
                    Ok(_) => Ok(()),
                    Err(e) => Err(e@),
                },
            ),
            DownloadEvent::Muxed(r) => DownloadEventView::Muxed(
                match r {
                    Ok(p) => Ok(p@),
                    Err(e) => Err(e@),
                },
            ),
        }
    }
}

/// What the caller is to do next.
#[derive(Debug, Clone, PartialEq, Eq)]
pub enum DownloadAction {
    /// Fetch one stream as the request says, then report `Fetched`.
    Fetch { stream: StreamKind, request: FetchRequest },
    /// Look whether the video part and the audio part exist, then report
    /// `Inspected`.
    Inspect,
    /// Rename one file to another, then report `Renamed`.
    Rename { from: FileRole, to: FileRole },
    /// Mux the video part and the audio part into the finished file, then
    /// report `Muxed`.
    Mux,
    /// Delete one file, whether or not that works, rename another, then
    /// report `Renamed`.
    DiscardThenRename { discard: FileRole, from: FileRole, to: FileRole },
    /// Nothing is left to do: the download ended this way.
    Finish(DownloadOutcome),
}

/// What a [`DownloadAction`] holds, as mathematical values.
pub enum DownloadActionView {
    Fetch { stream: StreamKind, request: FetchRequestView },
    Inspect,
    Rename { from: FileRole, to: FileRole },
    Mux,
    DiscardThenRename { discard: FileRole, from: FileRole, to: FileRole },
    Finish(DownloadOutcomeView),
}

impl View for DownloadAction {
    type V = DownloadActionView;

    open spec fn view(&self) -> DownloadActionView {
        match self {
            DownloadAction::Fetch { stream, request } => DownloadActionView::Fetch {
                stream: *stream,
                request: request@,
            },
            DownloadAction::Inspect => DownloadActionView::Inspect,
            DownloadAction::Rename { from, to } => DownloadActionView::Rename {
                from: *from,
                to: *to,
            },
            DownloadAction::Mux => DownloadActionView::Mux,
            DownloadAction::DiscardThenRename {
                discard,
                from,
                to,
            } => DownloadActionView::DiscardThenRename { discard: *discard, from: *from, to: *to },
            DownloadAction::Finish(outcome) => DownloadActionView::Finish(outcome@),
        }
    }
}

/// The reason given where the request offers no video stream.
pub open spec fn missing_video_url() -> Seq<char> {
    "视频流URL为空"@
}

/// The reason given where neither stream file is there after the fetches.
pub open spec fn nothing_downloaded() -> Seq<char> {
    "下载失败：没有成功下载任何文件"@
}

/// The reason given where the caller reports an event that the state does
/// not wait for.
pub open spec fn unexpected_event() -> Seq<char> {
    "下载失败：收到了意外的事件"@
}

/// The words that open the report of a failed rename.
pub open spec fn rename_failure_prefix(state: DownloadState) -> Seq<char> {
    match state {
        DownloadState::RenamingVideo { degraded: true } => "重命名合成文件失败: "@,
        DownloadState::RenamingAudio => "重命名音频文件失败: "@,
        _ => "重命名视频文件失败: "@,
    }
}

/// The machine's answer where the download fails.
pub open spec fn fail(kind: FailureKind, reason: Seq<char>) -> (DownloadState, DownloadActionView) {
    (
        DownloadState::Failed,
        DownloadActionView::Finish(DownloadOutcomeView::Failed { kind, reason }),
    )
}

/// What is done once it is known which stream files exist.
///
/// | video | audio | action |
/// |---|---|---|
/// | yes | no | rename the video part to the finished file |
/// | no | yes | rename the audio part to the finished audio file |
/// | yes | yes | mux |
/// | no | no | fail |
pub open spec fn decision(video_exists: bool, audio_exists: bool) -> (
    DownloadState,
    DownloadActionView,
) {
    if video_exists && !audio_exists {
        (
            DownloadState::RenamingVideo { degraded: false },
            DownloadActionView::Rename { from: FileRole::VideoPart, to: FileRole::Final },
        )
    } else if !video_exists && audio_exists {
        (
            DownloadState::RenamingAudio,
            DownloadActionView::Rename { from: FileRole::AudioPart, to: FileRole::AudioFinal },
        )
    } else if video_exists && audio_exists {
        (DownloadState::Muxing, DownloadActionView::Mux)
    } else {
        fail(FailureKind::Logic, nothing_downloaded())
    }
}

/// The action that fetches one stream of a request.
pub open spec fn fetch_action(
    request: DownloadRequestView,
    target: DownloadTargetView,
    stream: StreamKind,
    url: Seq<char>,
) -> DownloadActionView {
    DownloadActionView::Fetch {
        stream,
        request: stream_request_of(
            url,
            request.cookies,
            request.bvid,
            match stream {
                StreamKind::Video => target.video_path,
                StreamKind::Audio => target.audio_path,
            },
        ),
    }
}

/// The machine: the state and action that follow a state and an event.
pub open spec fn next(
    request: DownloadRequestView,
    target: DownloadTargetView,
    state: DownloadState,
    event: DownloadEventView,
) -> (DownloadState, DownloadActionView) {
    match (state, event) {
        (DownloadState::Start, DownloadEventView::Begin) => match request.video.url {
            Some(url) => (
                DownloadState::FetchingVideo,
                fetch_action(request, target, StreamKind::Video, url),
            ),
            None => fail(FailureKind::MissingInput, missing_video_url()),
        },
        (DownloadState::FetchingVideo, DownloadEventView::Fetched(Ok(_))) => match request.audio.url {
            Some(url) => (
                DownloadState::FetchingAudio,
                fetch_action(request, target, StreamKind::Audio, url),
            ),
            None => (DownloadState::Inspecting, DownloadActionView::Inspect),
        },
        (DownloadState::FetchingVideo, DownloadEventView::Fetched(Err(e))) => fail(
            fetch_error_kind(e),
            fetch_error_message(StreamKind::Video, e),
        ),
        (DownloadState::FetchingAudio, DownloadEventView::Fetched(Ok(_))) => (
            DownloadState::Inspecting,
            DownloadActionView::Inspect,
        ),
        (DownloadState::FetchingAudio, DownloadEventView::Fetched(Err(e))) => fail(
            fetch_error_kind(e),
            fetch_error_message(StreamKind::Audio, e),
        ),
        (
            DownloadState::Inspecting,
            DownloadEventView::Inspected { video_exists, audio_exists },
        ) => decision(video_exists, audio_exists),
        (DownloadState::RenamingVideo { degraded }, DownloadEventView::Renamed(Ok(_))) => (
            DownloadState::Done,
            DownloadActionView::Finish(
                DownloadOutcomeView::VideoOnly { path: target.final_path, degraded },
            ),
        ),
        (DownloadState::RenamingAudio, DownloadEventView::Renamed(Ok(_))) => (
            DownloadState::Done,
            DownloadActionView::Finish(
                DownloadOutcomeView::AudioOnly { path: target.audio_final_path },
            ),
        ),
        (DownloadState::RenamingVideo { .. }, DownloadEventView::Renamed(Err(e))) => fail(
            FailureKind::Filesystem,
            rename_failure_prefix(state) + e,
        ),
        (DownloadState::RenamingAudio, DownloadEventView::Renamed(Err(e))) => fail(
            FailureKind::Filesystem,
            rename_failure_prefix(state) + e,
        ),
        (DownloadState::Muxing, DownloadEventView::Muxed(Ok(_))) => (
            DownloadState::Done,
            DownloadActionView::Finish(DownloadOutcomeView::Muxed { path: target.final_path }),
        ),
        (DownloadState::Muxing, DownloadEventView::Muxed(Err(_))) => (
            DownloadState::RenamingVideo { degraded: true },
            DownloadActionView::DiscardThenRename {
                discard: FileRole::AudioPart,
                from: FileRole::VideoPart,
                to: FileRole::Final,
            },
        ),
        _ => fail(FailureKind::Logic, unexpected_event()),
    }
}

fn failed(kind: FailureKind, reason: String) -> (r: (DownloadState, DownloadAction))
    ensures
        r.0 == fail(kind, reason@).0,
        r.1@ == fail(kind, reason@).1,
{
    (DownloadState::Failed, DownloadAction::Finish(DownloadOutcome::Failed { kind, reason }))
}

/// Decides what is done once it is known which stream files exist.
pub fn decide(video_exists: bool, audio_exists: bool) -> (r: (DownloadState, DownloadAction))
    ensures
        r.0 == decision(video_exists, audio_exists).0,
        r.1@ == decision(video_exists, audio_exists).1,
        r.0 == DownloadState::Failed <==> !video_exists && !audio_exists,
{
    if video_exists && !audio_exists {
        (
            DownloadState::RenamingVideo { degraded: false },
            DownloadAction::Rename { from: FileRole::VideoPart, to: FileRole::Final },
        )
    } else if !video_exists && audio_exists {
        (
            DownloadState::RenamingAudio,
            DownloadAction::Rename { from: FileRole::AudioPart, to: FileRole::AudioFinal },
        )
    } else if video_exists && audio_exists {
        (DownloadState::Muxing, DownloadAction::Mux)
    } else {
        failed(FailureKind::Logic, String::from_str("下载失败：没有成功下载任何文件"))
    }
}

/// Advances a download by one event. The first call takes
/// [`DownloadState::Start`] and [`DownloadEvent::Begin`]. An event that the
/// state does not wait for ends the download with a failure.
pub fn step(
    request: &DownloadRequest,
    target: &DownloadTarget,
    state: DownloadState,
    event: DownloadEvent,
) -> (r: (DownloadState, DownloadAction))
    ensures
        r.0 == next(request@, target@, state, event@).0,
        r.1@ == next(request@, target@, state, event@).1,
{
    match (state, event) {
        (DownloadState::Start, DownloadEvent::Begin) => match &request.video.url {
            Some(url) => (
                DownloadState::FetchingVideo,
                DownloadAction::Fetch {
                    stream: StreamKind::Video,
                    request: stream_request(
                        url.as_str(),
                        request.cookies.as_str(),
                        request.bvid.as_str(),
                        target.video_path.as_str(),
                    ),
                },
            ),
            None => failed(FailureKind::MissingInput, String::from_str("视频流URL为空")),
        },
        (DownloadState::FetchingVideo, DownloadEvent::Fetched(Ok(_))) => match &request.audio.url {
            Some(url) => (
                DownloadState::FetchingAudio,
                DownloadAction::Fetch {
                    stream: StreamKind::Audio,
                    request: stream_request(
                        url.as_str(),
                        request.cookies.as_str(),
                        request.bvid.as_str(),
                        target.audio_path.as_str(),
                    ),
                },
            ),
            None => (DownloadState::Inspecting, DownloadAction::Inspect),
        },
        (DownloadState::FetchingVideo, DownloadEvent::Fetched(Err(e))) => failed(
            e.kind(),
            e.message(StreamKind::Video),
        ),
        (DownloadState::FetchingAudio, DownloadEvent::Fetched(Ok(_))) => (
            DownloadState::Inspecting,
            DownloadAction::Inspect,
        ),
        (DownloadState::FetchingAudio, DownloadEvent::Fetched(Err(e))) => failed(
            e.kind(),
            e.message(StreamKind::Audio),
        ),
        (DownloadState::Inspecting, DownloadEvent::Inspected { video_exists, audio_exists }) => decide(
            video_exists,
            audio_exists,
        ),
        (DownloadState::RenamingVideo { degraded }, DownloadEvent::Renamed(Ok(_))) => (
            DownloadState::Done,
            DownloadAction::Finish(
                DownloadOutcome::VideoOnly { path: target.final_path.clone(), degraded },
            ),
        ),
        (DownloadState::RenamingAudio, DownloadEvent::Renamed(Ok(_))) => (
            DownloadState::Done,
            DownloadAction::Finish(
                DownloadOutcome::AudioOnly { path: target.audio_final_path.clone() },
            ),
        ),
        (DownloadState::RenamingVideo { degraded }, DownloadEvent::Renamed(Err(e))) => {
            if degraded {
                failed(FailureKind::Filesystem, join2("重命名合成文件失败: ", e.as_str()))
            } else {
                failed(FailureKind::Filesystem, join2("重命名视频文件失败: ", e.as_str()))
            }
        },
        (DownloadState::RenamingAudio, DownloadEvent::Renamed(Err(e))) => failed(
            FailureKind::Filesystem,
            join2("重命名音频文件失败: ", e.as_str()),
        ),
        (DownloadState::Muxing, DownloadEvent::Muxed(Ok(_))) => (
            DownloadState::Done,
            DownloadAction::Finish(DownloadOutcome::Muxed { path: target.final_path.clone() }),
        ),
        (DownloadState::Muxing, DownloadEvent::Muxed(Err(_))) => (
            DownloadState::RenamingVideo { degraded: true },
            DownloadAction::DiscardThenRename {
                discard: FileRole::AudioPart,
                from: FileRole::VideoPart,
                to: FileRole::Final,
            },
        ),
        _ => failed(FailureKind::Logic, String::from_str("下载失败：收到了意外的事件")),
    }
}

/// The words that open the report of a download that ended with a file.
pub open spec fn success_prefix(outcome: DownloadOutcomeView) -> Seq<char> {
    match outcome {
        DownloadOutcomeView::VideoOnly { degraded: false, .. } => "视频下载完成: "@,
        DownloadOutcomeView::VideoOnly { degraded: true, .. } => "视频下载完成（合并失败，仅视频）: "@,
        DownloadOutcomeView::AudioOnly { .. } => "音频下载完成: "@,
        _ => "视频下载并合并完成: "@,
    }
}

/// The path of the file that a download ended with, if it ended with one.
pub open spec fn outcome_path(outcome: DownloadOutcomeView) -> Option<Seq<char>> {
    match outcome {
        DownloadOutcomeView::VideoOnly { path, .. } => Some(path),
        DownloadOutcomeView::AudioOnly { path } => Some(path),
        DownloadOutcomeView::Muxed { path } => Some(path),
        DownloadOutcomeView::Failed { .. } => None,
    }
}

/// The one line that tells the user how a download ended, with `shown`
/// standing for the place of the file: for a download that ended with a
/// file, what was done and where the file is; for a failed one, the reason.
pub open spec fn report_with(outcome: DownloadOutcomeView, shown: Seq<char>) -> Result<
    Seq<char>,
    Seq<char>,
> {
    match outcome {
        DownloadOutcomeView::Failed { reason, .. } => Err(reason),
        _ => Ok(success_prefix(outcome) + shown),
    }
}

/// The one line that tells the user how a download ended. The place of the
/// file is its path in quotes.
pub open spec fn report(outcome: DownloadOutcomeView) -> Result<Seq<char>, Seq<char>> {
    match outcome_path(outcome) {
        Some(path) => report_with(outcome, debug_quoted(path)),
        None => report_with(outcome, Seq::empty()),
    }
}

/// The characters of either side of a result.
pub open spec fn result_text(r: Result<String, String>) -> Result<Seq<char>, Seq<char>> {
    match r {
        Ok(s) => Ok(s@),
        Err(e) => Err(e@),
    }
}

impl DownloadOutcome {
    /// The path of the file that the download ended with, if it ended with
    /// one.
    pub fn path(&self) -> (path: Option<&str>)
        ensures
            match path {
                Some(p) => outcome_path(self@) == Some(p@),
                None => outcome_path(self@) is None,
            },
    {
        match self {
            DownloadOutcome::VideoOnly { path, .. } => Some(path.as_str()),
            DownloadOutcome::AudioOnly { path } => Some(path.as_str()),
            DownloadOutcome::Muxed { path } => Some(path.as_str()),
            DownloadOutcome::Failed { .. } => None,
        }
    }

    /// The one line that tells the user how the download ended, with `shown`
    /// standing for the place of the file.
    pub fn message_with(&self, shown: &str) -> (line: Result<String, String>)
        ensures
            result_text(line) == report_with(self@, shown@),
    {
        match self {
            DownloadOutcome::VideoOnly { degraded, .. } => {
                if *degraded {
                    Ok(join2("视频下载完成（合并失败，仅视频）: ", shown))
                } else {
                    Ok(join2("视频下载完成: ", shown))
                }
            },
            DownloadOutcome::AudioOnly { .. } => Ok(join2("音频下载完成: ", shown)),
            DownloadOutcome::Muxed { .. } => Ok(join2("视频下载并合并完成: ", shown)),
            DownloadOutcome::Failed { reason, .. } => Err(reason.clone()),
        }
    }

    /// The one line that tells the user how the download ended.
    pub fn message(&self) -> (line: Result<String, String>)
        ensures
            result_text(line) == report(self@),
    {
        match self.path() {
            Some(path) => {
                let shown = quote(path);
                self.message_with(shown.as_str())
            },
            None => self.message_with(""),
        }
    }
}

} // verus!
