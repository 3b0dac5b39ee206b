//! What the download machine achieves over a whole run.
//!
//! The machine of [`crate::download`] answers one event at a time. Here it is
//! run from its first step to its last against a description of the
//! surroundings: how each fetch, the rename and the muxer will end, and which
//! of the download's files are on disk. The run follows the files through
//! every action, which makes it possible to say what is on disk when a
//! download ends.
//!
//! The description takes the actions at their word. A fetch that succeeds
//! leaves its file behind. A fetch that fails before anything is written (no
//! answer, a refusal, a body that does not arrive whole) leaves none; one
//! that fails while its file is created or written may leave a file or not,
//! as the surroundings have it. A rename that succeeds moves the file. A
//! muxer that succeeds leaves the finished file and deletes both parts, and
//! one that fails touches nothing. Discarding a file removes it.

use crate::download::{
    merge_job_of, next, rename_failure_prefix, DownloadActionView, DownloadEventView, DownloadOutcomeView, DownloadRequestView,
    DownloadState, FileRole,
};
use crate::fetch::{
    lemma_fetch_error_message_nonempty, FailureKind, FetchErrorView, StreamKind,
};
use crate::paths::DownloadTargetView;
use crate::tool_model::{
    lemma_merge_succeeds, lemma_unlocated_tool_fails, run_job, ToolSurroundings,
};
use vstd::prelude::*;

verus! {

/// How the world outside will answer during one download.
pub struct Surroundings {
    /// How fetching the video stream ends.
    pub video_fetch: Result<u64, FetchErrorView>,
    /// How fetching the audio stream ends.
    pub audio_fetch: Result<u64, FetchErrorView>,
    /// How renaming a file ends.
    pub rename: Result<(), Seq<char>>,
    /// How the muxer ends.
    pub mux: Result<Seq<char>, Seq<char>>,
    /// Whether a fetch that fails while its file is created or written
    /// leaves a file behind.
    pub leaves_partial: bool,
}

/// The event that an action leads to, given the files on disk.
pub open spec fn answer(
    world: Surroundings,
    action: DownloadActionView,
    files: Set<FileRole>,
) -> DownloadEventView {
    match action {
        DownloadActionView::Fetch { stream: StreamKind::Video, .. } => DownloadEventView::Fetched(
            world.video_fetch,
        ),
        DownloadActionView::Fetch { stream: StreamKind::Audio, .. } => DownloadEventView::Fetched(
            world.audio_fetch,
        ),
        DownloadActionView::Inspect => DownloadEventView::Inspected {
            video_exists: files.contains(FileRole::VideoPart),
            audio_exists: files.contains(FileRole::AudioPart),
        },
        DownloadActionView::Rename { .. } => DownloadEventView::Renamed(world.rename),
        DownloadActionView::DiscardThenRename { .. } => DownloadEventView::Renamed(world.rename),
        DownloadActionView::Mux => DownloadEventView::Muxed(world.mux),
        DownloadActionView::Finish(_) => DownloadEventView::Begin,
    }
}

/// The part that receives a stream.
pub open spec fn part_of(stream: StreamKind) -> FileRole {
    match stream {
        StreamKind::Video => FileRole::VideoPart,
        StreamKind::Audio => FileRole::AudioPart,
    }
}

/// Whether a fetch that failed this way had begun to write its file.
pub open spec fn failed_while_writing(error: FetchErrorView) -> bool {
    error is CreateFile || error is WriteFile
}

/// The files on disk after an action that ended with the given event.
pub open spec fn effect(
    world: Surroundings,
    action: DownloadActionView,
    event: DownloadEventView,
    files: Set<FileRole>,
) -> Set<FileRole> {
    match (action, event) {
        (DownloadActionView::Fetch { stream, .. }, DownloadEventView::Fetched(Ok(_))) => files.insert(
            part_of(stream),
        ),
        (DownloadActionView::Fetch { stream, .. }, DownloadEventView::Fetched(Err(error))) => {
            if failed_while_writing(error) && world.leaves_partial {
                files.insert(part_of(stream))
            } else {
                files
            }
        },
        (DownloadActionView::Rename { from, to }, DownloadEventView::Renamed(Ok(_))) => files.remove(
            from,
        ).insert(to),
        (DownloadActionView::Mux, DownloadEventView::Muxed(Ok(_))) => files.remove(
            FileRole::VideoPart,
        ).remove(FileRole::AudioPart).insert(FileRole::Final),
        (
            DownloadActionView::DiscardThenRename { discard, from, to },
            DownloadEventView::Renamed(Ok(_)),
        ) => files.remove(discard).remove(from).insert(to),
        (DownloadActionView::DiscardThenRename { discard, .. }, _) => files.remove(discard),
        _ => files,
    }
}

/// How a run ended and what it left on disk.
pub struct Ending {
    pub outcome: DownloadOutcomeView,
    pub files: Set<FileRole>,
}

/// The rest of a run: performs `action` and whatever follows, for at most
/// `fuel` actions before the last.
pub open spec fn run_from(
    request: DownloadRequestView,
    target: DownloadTargetView,
    world: Surroundings,
    state: DownloadState,
    action: DownloadActionView,
    files: Set<FileRole>,
    fuel: nat,
) -> Option<Ending>
    decreases fuel,
{
    match action {
        DownloadActionView::Finish(outcome) => Some(Ending { outcome, files }),
        _ => if fuel == 0 {
            None
        } else {
            let event = answer(world, action, files);
            let following = next(request, target, state, event);
            run_from(
                request,
                target,
                world,
                following.0,
                following.1,
                effect(world, action, event, files),
                (fuel - 1) as nat,
            )
        },
    }
}

/// The most actions that a download performs before it finishes: two
/// fetches, the inspection, the muxer and the rename that follows its
/// failure.
pub open spec fn longest_run() -> nat {
    5
}

/// A whole download, from its first step.
pub open spec fn run(
    request: DownloadRequestView,
    target: DownloadTargetView,
    world: Surroundings,
    files: Set<FileRole>,
) -> Option<Ending> {
    let first = next(request, target, DownloadState::Start, DownloadEventView::Begin);
    run_from(request, target, world, first.0, first.1, files, longest_run())
}

/// Every download ends, whatever the request and however the world answers,
/// after at most five actions, with exactly one outcome.
pub proof fn lemma_run_ends(
    request: DownloadRequestView,
    target: DownloadTargetView,
    world: Surroundings,
    files: Set<FileRole>,
)
    ensures
        run(request, target, world, files) is Some,
{
    reveal_with_fuel(run_from, 6);
}

/// Where the request offers a video stream and no audio stream, the fetch
/// and the rename succeed, and no audio part lies on disk from earlier, the
/// download ends with the video alone in the finished file, and neither part
/// is left behind.
pub proof fn lemma_video_only(
    request: DownloadRequestView,
    target: DownloadTargetView,
    world: Surroundings,
    files: Set<FileRole>,
)
    requires
        request.video.url is Some,
        request.audio.url is None,
        world.video_fetch is Ok,
        world.rename is Ok,
        !files.contains(FileRole::AudioPart),
    ensures
        run(request, target, world, files) matches Some(end) && {
            &&& end.outcome == (DownloadOutcomeView::VideoOnly {
                path: target.final_path,
                degraded: false,
            })
            &&& end.files.contains(FileRole::Final)
            &&& !end.files.contains(FileRole::VideoPart)
            &&& !end.files.contains(FileRole::AudioPart)
        },
{
    reveal_with_fuel(run_from, 6);
}

/// Where the request offers both streams, both fetches succeed and the muxer
/// succeeds, the download ends with both streams in the finished file, and
/// neither part is left behind.
pub proof fn lemma_muxed(
    request: DownloadRequestView,
    target: DownloadTargetView,
    world: Surroundings,
    files: Set<FileRole>,
)
    requires
        request.video.url is Some,
        request.audio.url is Some,
        world.video_fetch is Ok,
        world.audio_fetch is Ok,
        world.mux is Ok,
    ensures
        run(request, target, world, files) matches Some(end) && {
            &&& end.outcome == (DownloadOutcomeView::Muxed { path: target.final_path })
            &&& end.files.contains(FileRole::Final)
            &&& !end.files.contains(FileRole::VideoPart)
            &&& !end.files.contains(FileRole::AudioPart)
        },
{
    reveal_with_fuel(run_from, 6);
}

/// Where the request offers both streams and both fetches succeed but the
/// muxer fails, for want of the media tool or for any other reason, the
/// download still ends with a file: the video alone, marked as degraded. The
/// audio part is removed.
pub proof fn lemma_mux_failure_degrades(
    request: DownloadRequestView,
    target: DownloadTargetView,
    world: Surroundings,
    files: Set<FileRole>,
)
    requires
        request.video.url is Some,
        request.audio.url is Some,
        world.video_fetch is Ok,
        world.audio_fetch is Ok,
        world.mux is Err,
        world.rename is Ok,
    ensures
        run(request, target, world, files) matches Some(end) && {
            &&& end.outcome == (DownloadOutcomeView::VideoOnly {
                path: target.final_path,
                degraded: true,
            })
            &&& end.files.contains(FileRole::Final)
            &&& !end.files.contains(FileRole::VideoPart)
            &&& !end.files.contains(FileRole::AudioPart)
        },
{
    reveal_with_fuel(run_from, 6);
}

/// Where the request offers both streams, both fetches succeed, and the
/// media tool is located, finds both parts, can have its output directory
/// and runs to a successful end, the muxer hands back the finished file and
/// deletes exactly the two parts, and the download ends with both streams in
/// the finished file.
pub proof fn lemma_located_tool_muxes(
    request: DownloadRequestView,
    target: DownloadTargetView,
    world: Surroundings,
    files: Set<FileRole>,
    tools: ToolSurroundings,
)
    requires
        request.video.url is Some,
        request.audio.url is Some,
        world.video_fetch is Ok,
        world.audio_fetch is Ok,
        tools.located is Ok,
        tools.present.contains(target.video_path),
        tools.present.contains(target.audio_path),
        tools.prepared is Ok,
        tools.ran is Ok,
        tools.ran->Ok_0.success,
        run_job(merge_job_of(target), tools) matches Some(end) && end.result == world.mux,
    ensures
        run_job(merge_job_of(target), tools) matches Some(end) && {
            &&& end.result == Ok::<Seq<char>, Seq<char>>(target.final_path)
            &&& end.discard == seq![target.video_path, target.audio_path]
        },
        run(request, target, world, files) matches Some(end) && {
            &&& end.outcome == (DownloadOutcomeView::Muxed { path: target.final_path })
            &&& end.files.contains(FileRole::Final)
            &&& !end.files.contains(FileRole::VideoPart)
            &&& !end.files.contains(FileRole::AudioPart)
        },
{
    lemma_merge_succeeds(target.video_path, target.audio_path, target.final_path, tools);
    lemma_muxed(request, target, world, files);
}

/// Where the request offers both streams and both fetches succeed but the
/// media tool cannot be located, the muxer fails without touching a file,
/// and the download ends with the video alone in the finished file. The
/// audio part is removed.
pub proof fn lemma_unlocated_tool_degrades(
    request: DownloadRequestView,
    target: DownloadTargetView,
    world: Surroundings,
    files: Set<FileRole>,
    tools: ToolSurroundings,
)
    requires
        request.video.url is Some,
        request.audio.url is Some,
        world.video_fetch is Ok,
        world.audio_fetch is Ok,
        world.rename is Ok,
        tools.located is Err,
        run_job(merge_job_of(target), tools) matches Some(end) && end.result == world.mux,
    ensures
        run(request, target, world, files) matches Some(end) && {
            &&& end.outcome == (DownloadOutcomeView::VideoOnly {
                path: target.final_path,
                degraded: true,
            })
            &&& end.files.contains(FileRole::Final)
            &&& !end.files.contains(FileRole::AudioPart)
        },
{
    lemma_unlocated_tool_fails(merge_job_of(target), tools);
    lemma_mux_failure_degrades(request, target, world, files);
}

/// Where the request offers no video stream, the download fails at once,
/// with a reason that is not empty, whether or not audio is on offer.
/// Nothing is fetched and no file is created.
pub proof fn lemma_missing_video_fails(
    request: DownloadRequestView,
    target: DownloadTargetView,
    world: Surroundings,
    files: Set<FileRole>,
)
    requires
        request.video.url is None,
    ensures
        run(request, target, world, files) matches Some(end) && {
            &&& end.outcome is Failed
            &&& end.outcome->Failed_reason.len() > 0
            &&& end.files == files
        },
{
    reveal_with_fuel(run_from, 6);
    reveal_strlit("视频流URL为空");
}

/// Where the video stream cannot be fetched, the download fails with a
/// reason that is not empty. The audio stream is not asked for and no
/// finished file appears. Nothing at all changes on disk where the fetch
/// failed before its file was touched; where it failed while writing, the
/// video part may be left behind, and nothing else changes.
pub proof fn lemma_failed_video_fetch_fails(
    request: DownloadRequestView,
    target: DownloadTargetView,
    world: Surroundings,
    files: Set<FileRole>,
)
    requires
        request.video.url is Some,
        world.video_fetch is Err,
    ensures
        run(request, target, world, files) matches Some(end) && {
            &&& end.outcome is Failed
            &&& end.outcome->Failed_reason.len() > 0
            &&& end.files.contains(FileRole::Final) == files.contains(FileRole::Final)
            &&& end.files.contains(FileRole::AudioFinal) == files.contains(FileRole::AudioFinal)
            &&& end.files.contains(FileRole::AudioPart) == files.contains(FileRole::AudioPart)
            &&& end.files == files || end.files == files.insert(FileRole::VideoPart)
            &&& !failed_while_writing(world.video_fetch->Err_0) ==> end.files == files
        },
{
    reveal_with_fuel(run_from, 6);
    lemma_fetch_error_message_nonempty(StreamKind::Video, world.video_fetch->Err_0);
}

/// Whether a download whose fetches succeed comes to the muxer: it does
/// where an audio part is on disk at the inspection, fetched now or left
/// from earlier.
pub open spec fn reaches_muxer(request: DownloadRequestView, files: Set<FileRole>) -> bool {
    request.audio.url is Some || files.contains(FileRole::AudioPart)
}

/// Where the fetches succeed but the video part cannot be renamed to the
/// finished file, the download fails, whether it came to the rename with
/// the video alone or after a failed muxer. The reason is that of the
/// rename, no finished file appears and the video part stays where it is.
pub proof fn lemma_failed_rename_fails(
    request: DownloadRequestView,
    target: DownloadTargetView,
    world: Surroundings,
    files: Set<FileRole>,
)
    requires
        request.video.url is Some,
        world.video_fetch is Ok,
        world.audio_fetch is Ok,
        world.rename is Err,
        reaches_muxer(request, files) ==> world.mux is Err,
    ensures
        run(request, target, world, files) matches Some(end) && {
            &&& end.outcome == (DownloadOutcomeView::Failed {
                kind: FailureKind::Filesystem,
                reason: rename_failure_prefix(
                    DownloadState::RenamingVideo { degraded: reaches_muxer(request, files) },
                ) + world.rename->Err_0,
            })
            &&& end.files.contains(FileRole::VideoPart)
            &&& !end.files.contains(FileRole::AudioPart)
            &&& end.files.contains(FileRole::Final) == files.contains(FileRole::Final)
        },
{
    reveal_with_fuel(run_from, 6);
}

/// A download that fails always says why: its reason is never empty.
pub proof fn lemma_failure_has_reason(
    request: DownloadRequestView,
    target: DownloadTargetView,
    world: Surroundings,
    files: Set<FileRole>,
)
    ensures
        run(request, target, world, files) matches Some(end) && (end.outcome matches DownloadOutcomeView::Failed {
            reason,
            ..
        } ==> reason.len() > 0),
{
    reveal_with_fuel(run_from, 6);
    reveal_strlit("视频流URL为空");
    reveal_strlit("下载失败：没有成功下载任何文件");
    reveal_strlit("重命名视频文件失败: ");
    reveal_strlit("重命名音频文件失败: ");
    reveal_strlit("重命名合成文件失败: ");
    if world.video_fetch is Err {
        lemma_fetch_error_message_nonempty(StreamKind::Video, world.video_fetch->Err_0);
    }
    if world.audio_fetch is Err {
        lemma_fetch_error_message_nonempty(StreamKind::Audio, world.audio_fetch->Err_0);
    }
}

/// A failing muxer alone never makes a download fail. Where the video
/// stream is on offer, both fetches succeed and the rename succeeds, the
/// download ends with a file, however the muxer ends and whatever was on
/// disk before.
pub proof fn lemma_muxer_cannot_fail_a_download(
    request: DownloadRequestView,
    target: DownloadTargetView,
    world: Surroundings,
    files: Set<FileRole>,
)
    requires
        request.video.url is Some,
        world.video_fetch is Ok,
        world.audio_fetch is Ok,
        world.rename is Ok,
    ensures
        run(request, target, world, files) matches Some(end) && !(end.outcome is Failed)
            && end.files.contains(FileRole::Final),
{
    reveal_with_fuel(run_from, 6);
}

/// A download that ends with a file leaves that file on disk: the finished
/// file for video alone and for both streams, the finished audio file for
/// audio alone.
pub proof fn lemma_outcome_file_exists(
    request: DownloadRequestView,
    target: DownloadTargetView,
    world: Surroundings,
    files: Set<FileRole>,
)
    ensures
        run(request, target, world, files) matches Some(end) && match end.outcome {
            DownloadOutcomeView::VideoOnly { path, .. } => path == target.final_path
                && end.files.contains(FileRole::Final),
            DownloadOutcomeView::Muxed { path } => path == target.final_path && end.files.contains(
                FileRole::Final,
            ),
            DownloadOutcomeView::AudioOnly { path } => path == target.audio_final_path
                && end.files.contains(FileRole::AudioFinal),
            DownloadOutcomeView::Failed { .. } => true,
        },
{
    reveal_with_fuel(run_from, 6);
}

} // verus!
