//! Copying finished files to a folder of the user's choice, and the small
//! services around it: opening a folder and describing a file.
//!
//! A copy never overwrites. Where the folder already has a file of the
//! wanted name, the copy gets the name with `_1` before the extension, or
//! `_2`, and so on: the first of these that is free.
//!
//! [`export_step`] decides; the caller probes, creates the folder, copies
//! and reports.

use crate::paths::{
    extension, extension_of, extension_of_name, file_name, file_name_of, file_stem,
    file_stem_of, has_extension, join_path, joined_path, last_dot, lemma_last_dot,
    lemma_last_dot_after,
};
use crate::text::{decimal, join2, join3, join_with, joined, push_decimal, texts};
use crate::types::{text_of, FileInfo};
use vstd::prelude::*;

verus! {

/// One file to copy.
#[derive(Debug, Clone, PartialEq, Eq)]
pub struct ExportRequest {
    /// The file to copy.
    pub source_path: String,
    /// The folder that receives the copy.
    pub target_folder: String,
    /// The name of the copy, where it is not to have the name of the source.
    pub new_filename: Option<String>,
}

/// What an [`ExportRequest`] holds, as mathematical values.
pub struct ExportRequestView {
    pub source_path: Seq<char>,
    pub target_folder: Seq<char>,
    pub new_filename: Option<Seq<char>>,
}

impl View for ExportRequest {
    type V = ExportRequestView;

    open spec fn view(&self) -> ExportRequestView {
        ExportRequestView {
            source_path: self.source_path@,
            target_folder: self.target_folder@,
            new_filename: text_of(self.new_filename),
        }
    }
}

/// Where an export stands.
#[derive(Debug, Clone, PartialEq, Eq)]
pub enum ExportState {
    /// Nothing has been done yet.
    Start,
    /// The caller is looking whether the source exists.
    CheckingSource,
    /// The caller is looking whether the folder exists.
    CheckingFolder,
    /// The folder is being created.
    CreatingFolder,
    /// The caller is looking whether `candidate` is taken. `base` is the
    /// path that the copy would have in an empty folder, and `counter` the
    /// number that the next candidate gets.
    Probing { base: String, candidate: String, counter: u32 },
    /// The file is being copied to `target`.
    Copying { target: String },
    /// The export ended with a copy.
    Done,
    /// The export failed.
    Failed,
}

/// What an [`ExportState`] holds, as mathematical values.
pub enum ExportStateView {
    Start,
    CheckingSource,
    CheckingFolder,
    CreatingFolder,
    Probing { base: Seq<char>, candidate: Seq<char>, counter: u32 },
    Copying { target: Seq<char> },
    Done,
    Failed,
}

impl View for ExportState {
    type V = ExportStateView;

    open spec fn view(&self) -> ExportStateView {
        match self {
            ExportState::Start => ExportStateView::Start,
            ExportState::CheckingSource => ExportStateView::CheckingSource,
            ExportState::CheckingFolder => ExportStateView::CheckingFolder,
            ExportState::CreatingFolder => ExportStateView::CreatingFolder,
            ExportState::Probing { base, candidate, counter } => ExportStateView::Probing {
                base: base@,
                candidate: candidate@,
                counter: *counter,
            },
            ExportState::Copying { target } => ExportStateView::Copying { target: target@ },
            ExportState::Done => ExportStateView::Done,
            ExportState::Failed => ExportStateView::Failed,
        }
    }
}

/// What the caller reports back.
#[derive(Debug, PartialEq, Eq)]
pub enum ExportEvent {
    /// The export is to begin.
    Begin,
    /// Whether the probed path exists.
    Probed(bool),
    /// Creating the folder ended: well, or with the detail of its failure.
    Created(Result<(), String>),
    /// Copying ended: with the number of bytes copied, or with the detail of
    /// its failure.
    Copied(Result<u64, String>),
}

/// What an [`ExportEvent`] holds, as mathematical values.
pub enum ExportEventView {
    Begin,
    Probed(bool),
    Created(Result<(), Seq<char>>),
    Copied(Result<u64, Seq<char>>),
}

impl View for ExportEvent {
    type V = ExportEventView;

    open spec fn view(&self) -> ExportEventView {
        match self {
            ExportEvent::Begin => ExportEventView::Begin,
            ExportEvent::Probed(b) => ExportEventView::Probed(*b),
            ExportEvent::Created(r) => ExportEventView::Created(
                match r {
                    Ok(_) => Ok(()),
                    Err(e) => Err(e@),
                },
            ),
            ExportEvent::Copied(r) => ExportEventView::Copied(
                match r {
                    Ok(n) => Ok(*n),
                    Err(e) => Err(e@),
                },
            ),
        }
    }
}

/// What the caller is to do next.
#[derive(Debug, PartialEq, Eq)]
pub enum ExportAction {
    /// Look whether the path exists, then report `Probed`.
    Probe(String),
    /// Create the folder and its ancestors, then report `Created`.
    CreateDirs(String),
    /// Copy one file to another path, then report `Copied`.
    Copy { from: String, to: String },
    /// The export is over: the path of the copy, or the reason why there is
    /// none.
    Finish(Result<String, String>),
}

/// What an [`ExportAction`] holds, as mathematical values.
pub enum ExportActionView {
    Probe(Seq<char>),
    CreateDirs(Seq<char>),
    Copy { from: Seq<char>, to: Seq<char> },
    Finish(Result<Seq<char>, Seq<char>>),
}

impl View for ExportAction {
    type V = ExportActionView;

    open spec fn view(&self) -> ExportActionView {
        match self {
            ExportAction::Probe(p) => ExportActionView::Probe(p@),
            ExportAction::CreateDirs(p) => ExportActionView::CreateDirs(p@),
            ExportAction::Copy { from, to } => ExportActionView::Copy { from: from@, to: to@ },
            ExportAction::Finish(r) => ExportActionView::Finish(
                match r {
                    Ok(p) => Ok(p@),
                    Err(e) => Err(e@),
                },
            ),
        }
    }
}

/// The text of an optional text, or the empty text.
pub open spec fn or_empty(o: Option<Seq<char>>) -> Seq<char> {
    match o {
        Some(s) => s,
        None => Seq::empty(),
    }
}

/// The name of the copy: the wanted name, or the name of the source.
pub open spec fn export_file_name(request: ExportRequestView) -> Option<Seq<char>> {
    chosen_name(request.new_filename, file_name_of(request.source_path))
}

/// A file name with a number: the stem, an underscore and the number, and
/// after a dot the extension, where there is one.
pub open spec fn numbered_from(stem: Seq<char>, ext: Seq<char>, number: u32) -> Seq<char> {
    if ext.len() == 0 {
        stem + "_"@ + decimal(number as nat)
    } else {
        stem + "_"@ + decimal(number as nat) + "."@ + ext
    }
}

/// The name that a copy gets where `base` and the names before it are
/// taken: the name of `base` with the number before its extension.
pub open spec fn numbered_name(base: Seq<char>, number: u32) -> Seq<char> {
    numbered_from(or_empty(file_stem_of(base)), or_empty(extension_of(base)), number)
}

/// A numbered name keeps the extension: where the file name of `base` has an
/// extension that is not empty, the numbered name is that file name with an
/// underscore and the number put in before its last dot.
pub proof fn lemma_numbered_keeps_extension(base: Seq<char>, number: u32)
    requires
        file_name_of(base) matches Some(name) && has_extension(name) && last_dot(name)->0 + 1
            < name.len(),
    ensures
        ({
            let name = file_name_of(base)->0;
            let dot = last_dot(name)->0;
            &&& numbered_name(base, number) == name.take(dot) + "_"@ + decimal(number as nat)
                + name.skip(dot)
            &&& extension_of_name(numbered_name(base, number)) == extension_of(base)
        }),
{
    reveal_strlit(".");
    reveal_strlit("_");
    let name = file_name_of(base)->0;
    let dot = last_dot(name)->0;
    lemma_last_dot(name);
    let ext = name.skip(dot + 1);
    assert("."@ + ext =~= name.skip(dot));
    let head = name.take(dot) + "_"@ + decimal(number as nat);
    let numbered = head + "."@ + ext;
    assert(numbered =~= name.take(dot) + "_"@ + decimal(number as nat) + name.skip(dot));
    assert(numbered_name(base, number) == numbered);
    lemma_last_dot(ext);
    lemma_last_dot_after(head + "."@, ext);
    assert(numbered =~= (head + "."@) + ext);
    assert(numbered.skip(head.len() as int + 1) =~= ext);
}

/// The name of the copy, given the name of the source: the wanted name, or
/// else the name of the source.
pub open spec fn chosen_name(wanted: Option<Seq<char>>, source_name: Option<Seq<char>>) -> Option<
    Seq<char>,
> {
    match wanted {
        Some(name) => Some(name),
        None => source_name,
    }
}

/// The paths that are tried for a copy, in order: `base` itself, then the
/// numbered names in the folder.
pub open spec fn export_candidate(folder: Seq<char>, base: Seq<char>, turn: nat) -> Seq<char> {
    if turn == 0 {
        base
    } else {
        joined_path(folder, numbered_name(base, turn as u32))
    }
}

/// The reason given where the source has no file name.
pub open spec fn no_source_name() -> Seq<char> {
    "无法获取源文件名"@
}

/// The reason given where every numbered name is taken.
pub open spec fn names_exhausted() -> Seq<char> {
    "复制文件失败: 没有可用的文件名"@
}

/// The reason given where the caller reports an event that the state does
/// not wait for.
pub open spec fn unexpected_export_event() -> Seq<char> {
    "收到了意外的事件"@
}

/// The machine's answer where the export fails.
pub open spec fn export_fail(reason: Seq<char>) -> (ExportStateView, ExportActionView) {
    (ExportStateView::Failed, ExportActionView::Finish(Err(reason)))
}

/// The machine's answer once source and folder are there: the first
/// candidate is probed.
pub open spec fn first_candidate(request: ExportRequestView) -> (
    ExportStateView,
    ExportActionView,
) {
    match export_file_name(request) {
        Some(name) => {
            let base = joined_path(request.target_folder, name);
            (
                ExportStateView::Probing { base, candidate: base, counter: 1 },
                ExportActionView::Probe(base),
            )
        },
        None => export_fail(no_source_name()),
    }
}

/// The machine: the state and action that follow a state and an event. An
/// event that the state does not wait for makes the export fail.
pub open spec fn export_next(
    request: ExportRequestView,
    state: ExportStateView,
    event: ExportEventView,
) -> (ExportStateView, ExportActionView) {
    match (state, event) {
        (ExportStateView::Start, ExportEventView::Begin) => (
            ExportStateView::CheckingSource,
            ExportActionView::Probe(request.source_path),
        ),
        (ExportStateView::CheckingSource, ExportEventView::Probed(exists)) => {
            if exists {
                (ExportStateView::CheckingFolder, ExportActionView::Probe(request.target_folder))
            } else {
                export_fail("源文件不存在: "@ + request.source_path)
            }
        },
        (ExportStateView::CheckingFolder, ExportEventView::Probed(exists)) => {
            if exists {
                first_candidate(request)
            } else {
                (
                    ExportStateView::CreatingFolder,
                    ExportActionView::CreateDirs(request.target_folder),
                )
            }
        },
        (ExportStateView::CreatingFolder, ExportEventView::Created(Ok(_))) => first_candidate(
            request,
        ),
        (ExportStateView::CreatingFolder, ExportEventView::Created(Err(e))) => export_fail(
            "创建目标目录失败: "@ + e,
        ),
        (
            ExportStateView::Probing { base, candidate, counter },
            ExportEventView::Probed(exists),
        ) => {
            if !exists {
                (
                    ExportStateView::Copying { target: candidate },
                    ExportActionView::Copy { from: request.source_path, to: candidate },
                )
            } else if counter == u32::MAX {
                export_fail(names_exhausted())
            } else {
                let following = joined_path(request.target_folder, numbered_name(base, counter));
                (
                    ExportStateView::Probing {
                        base,
                        candidate: following,
                        counter: (counter + 1) as u32,
                    },
                    ExportActionView::Probe(following),
                )
            }
        },
        (ExportStateView::Copying { target }, ExportEventView::Copied(Ok(_))) => (
            ExportStateView::Done,
            ExportActionView::Finish(Ok(target)),
        ),
        (ExportStateView::Copying { .. }, ExportEventView::Copied(Err(e))) => export_fail(
            "复制文件失败: "@ + e,
        ),
        _ => export_fail(unexpected_export_event()),
    }
}

fn failing(reason: String) -> (r: (ExportState, ExportAction))
    ensures
        (r.0@, r.1@) == export_fail(reason@),
{
    (ExportState::Failed, ExportAction::Finish(Err(reason)))
}

/// Builds a file name with a number from its stem and its extension.
pub fn numbered_parts(stem: &str, ext: &str, number: u32) -> (name: String)
    ensures
        name@ == numbered_from(stem@, ext@, number),
{
    let mut name = join2(stem, "_");
    push_decimal(&mut name, number as u64);
    if ext.unicode_len() == 0 {
        name
    } else {
        name.append(".");
        name.append(ext);
        name
    }
}

/// Builds the name that a copy gets where `base` and the names before it
/// are taken.
pub fn numbered(base: &str, number: u32) -> (name: String)
    ensures
        name@ == numbered_name(base@, number),
{
    let stem = match file_stem(base) {
        Some(stem) => stem,
        None => String::new(),
    };
    let ext = match extension(base) {
        Some(ext) => ext,
        None => String::new(),
    };
    numbered_parts(stem.as_str(), ext.as_str(), number)
}

/// Chooses the name of the copy, given the name of the source.
pub fn choose_name(wanted: &Option<String>, source_name: Option<String>) -> (name: Option<String>)
    ensures
        text_of(name) == chosen_name(text_of(*wanted), text_of(source_name)),
{
    match wanted {
        Some(name) => Some(name.clone()),
        None => source_name,
    }
}

fn probe_first(request: &ExportRequest) -> (r: (ExportState, ExportAction))
    ensures
        (r.0@, r.1@) == first_candidate(request@),
{
    let source_name = file_name(request.source_path.as_str());
    match choose_name(&request.new_filename, source_name) {
        Some(name) => {
            let base = join_path(request.target_folder.as_str(), name.as_str());
            let candidate = base.clone();
            let probe = base.clone();
            (ExportState::Probing { base, candidate, counter: 1 }, ExportAction::Probe(probe))
        },
        None => failing(String::from_str("无法获取源文件名")),
    }
}

/// Advances an export by one event. The first call takes
/// [`ExportState::Start`] and [`ExportEvent::Begin`].
pub fn export_step(request: &ExportRequest, state: ExportState, event: ExportEvent) -> (r: (
    ExportState,
    ExportAction,
))
    ensures
        (r.0@, r.1@) == export_next(request@, state@, event@),
{
    match (state, event) {
        (ExportState::Start, ExportEvent::Begin) => (
            ExportState::CheckingSource,
            ExportAction::Probe(request.source_path.clone()),
        ),
        (ExportState::CheckingSource, ExportEvent::Probed(exists)) => {
            if exists {
                (ExportState::CheckingFolder, ExportAction::Probe(request.target_folder.clone()))
            } else {
                failing(join2("源文件不存在: ", request.source_path.as_str()))
            }
        },
        (ExportState::CheckingFolder, ExportEvent::Probed(exists)) => {
            if exists {
                probe_first(request)
            } else {
                (
                    ExportState::CreatingFolder,
                    ExportAction::CreateDirs(request.target_folder.clone()),
                )
            }
        },
        (ExportState::CreatingFolder, ExportEvent::Created(Ok(_))) => probe_first(request),
        (ExportState::CreatingFolder, ExportEvent::Created(Err(e))) => failing(
            join2("创建目标目录失败: ", e.as_str()),
        ),
        (ExportState::Probing { base, candidate, counter }, ExportEvent::Probed(exists)) => {
            if !exists {
                let to = candidate.clone();
                (
                    ExportState::Copying { target: candidate },
                    ExportAction::Copy { from: request.source_path.clone(), to },
                )
            } else if counter == u32::MAX {
                failing(String::from_str("复制文件失败: 没有可用的文件名"))
            } else {
                let name = numbered(base.as_str(), counter);
                let following = join_path(request.target_folder.as_str(), name.as_str());
                let probe = following.clone();
                (
                    ExportState::Probing { base, candidate: following, counter: counter + 1 },
                    ExportAction::Probe(probe),
                )
            }
        },
        (ExportState::Copying { target }, ExportEvent::Copied(Ok(_))) => (
            ExportState::Done,
            ExportAction::Finish(Ok(target)),
        ),
        (ExportState::Copying { .. }, ExportEvent::Copied(Err(e))) => failing(
            join2("复制文件失败: ", e.as_str()),
        ),
        _ => failing(String::from_str("收到了意外的事件")),
    }
}

/// The surroundings of an export.
pub struct ExportSurroundings {
    /// The paths that exist.
    pub present: Set<Seq<char>>,
    /// How creating the folder ends.
    pub created: Result<(), Seq<char>>,
    /// How copying ends.
    pub copied: Result<u64, Seq<char>>,
}

/// The event that an action leads to.
pub open spec fn export_answer(world: ExportSurroundings, action: ExportActionView) -> ExportEventView {
    match action {
        ExportActionView::Probe(path) => ExportEventView::Probed(world.present.contains(path)),
        ExportActionView::CreateDirs(_) => ExportEventView::Created(world.created),
        ExportActionView::Copy { .. } => ExportEventView::Copied(world.copied),
        ExportActionView::Finish(_) => ExportEventView::Begin,
    }
}

/// The rest of an export: performs `action` and whatever follows, for at
/// most `fuel` actions before the last.
pub open spec fn export_from(
    request: ExportRequestView,
    world: ExportSurroundings,
    state: ExportStateView,
    action: ExportActionView,
    fuel: nat,
) -> Option<Result<Seq<char>, Seq<char>>>
    decreases fuel,
{
    match action {
        ExportActionView::Finish(result) => Some(result),
        _ => if fuel == 0 {
            None
        } else {
            let following = export_next(request, state, export_answer(world, action));
            export_from(request, world, following.0, following.1, (fuel - 1) as nat)
        },
    }
}

/// A whole export, from its first step, for at most `fuel` actions.
pub open spec fn export_run(request: ExportRequestView, world: ExportSurroundings, fuel: nat) -> Option<
    Result<Seq<char>, Seq<char>>,
> {
    let first = export_next(request, ExportStateView::Start, ExportEventView::Begin);
    export_from(request, world, first.0, first.1, fuel)
}

proof fn lemma_export_probing(
    request: ExportRequestView,
    world: ExportSurroundings,
    base: Seq<char>,
    turn: nat,
    free: nat,
    fuel: nat,
)
    requires
        turn <= free < u32::MAX,
        forall|k: nat|
            turn <= k < free ==> world.present.contains(
                #[trigger] export_candidate(request.target_folder, base, k),
            ),
        !world.present.contains(export_candidate(request.target_folder, base, free)),
        world.copied is Ok,
        fuel >= free - turn + 2,
    ensures
        export_from(
            request,
            world,
            ExportStateView::Probing {
                base,
                candidate: export_candidate(request.target_folder, base, turn),
                counter: (turn + 1) as u32,
            },
            ExportActionView::Probe(export_candidate(request.target_folder, base, turn)),
            fuel,
        ) == Some(
            Ok::<Seq<char>, Seq<char>>(export_candidate(request.target_folder, base, free)),
        ),
    decreases free - turn,
{
    reveal_with_fuel(export_from, 3);
    let candidate = export_candidate(request.target_folder, base, turn);
    if turn < free {
        assert(world.present.contains(candidate));
        lemma_export_probing(request, world, base, turn + 1, free, (fuel - 1) as nat);
    }
}

/// An export whose source exists, whose folder exists or can be made and
/// whose copy succeeds ends with the first free candidate: where the first
/// `free` candidates are taken and the next is not, the copy goes there.
pub proof fn lemma_export_takes_first_free(
    request: ExportRequestView,
    world: ExportSurroundings,
    free: nat,
)
    requires
        world.present.contains(request.source_path),
        world.present.contains(request.target_folder) || world.created is Ok,
        world.copied is Ok,
        export_file_name(request) is Some,
        free < u32::MAX,
        ({
            let base = joined_path(request.target_folder, export_file_name(request)->0);
            &&& forall|k: nat|
                k < free ==> world.present.contains(
                    #[trigger] export_candidate(request.target_folder, base, k),
                )
            &&& !world.present.contains(export_candidate(request.target_folder, base, free))
        }),
    ensures
        export_run(request, world, free + 5) == Some(
            Ok::<Seq<char>, Seq<char>>(
                export_candidate(
                    request.target_folder,
                    joined_path(request.target_folder, export_file_name(request)->0),
                    free,
                ),
            ),
        ),
{
    reveal_with_fuel(export_from, 4);
    let base = joined_path(request.target_folder, export_file_name(request)->0);
    // Two actions come before the first candidate where the folder is there,
    // three where it has to be made.
    lemma_export_probing(request, world, base, 0, free, free + 3);
    lemma_export_probing(request, world, base, 0, free, free + 2);
}

/// An export whose source does not exist fails at once and copies nothing.
pub proof fn lemma_export_needs_source(
    request: ExportRequestView,
    world: ExportSurroundings,
    fuel: nat,
)
    requires
        !world.present.contains(request.source_path),
        fuel >= 1,
    ensures
        export_run(request, world, fuel) == Some(
            Err::<Seq<char>, Seq<char>>("源文件不存在: "@ + request.source_path),
        ),
{
    reveal_with_fuel(export_from, 3);
}

/// One file of a batch and how its export ended.
#[derive(Debug, PartialEq, Eq)]
pub struct ExportAttempt {
    pub source: String,
    pub result: Result<String, String>,
}

/// The report of one failed export of a batch.
pub open spec fn attempt_failure(source: Seq<char>, reason: Seq<char>) -> Seq<char> {
    "导出文件 "@ + source + " 失败: "@ + reason
}

/// The copies of a batch, in order.
pub open spec fn exported_of(attempts: Seq<ExportAttempt>) -> Seq<Seq<char>>
    decreases attempts.len(),
{
    if attempts.len() == 0 {
        Seq::empty()
    } else {
        let before = exported_of(attempts.drop_last());
        match attempts.last().result {
            Ok(path) => before.push(path@),
            Err(_) => before,
        }
    }
}

/// The reports of the failed exports of a batch, in order.
pub open spec fn failures_of(attempts: Seq<ExportAttempt>) -> Seq<Seq<char>>
    decreases attempts.len(),
{
    if attempts.len() == 0 {
        Seq::empty()
    } else {
        let before = failures_of(attempts.drop_last());
        match attempts.last().result {
            Ok(_) => before,
            Err(reason) => before.push(attempt_failure(attempts.last().source@, reason@)),
        }
    }
}

/// The result of a batch: the copies, where every export succeeded; else
/// one report that lists every failure.
pub open spec fn batch_result_of(attempts: Seq<ExportAttempt>) -> Result<
    Seq<Seq<char>>,
    Seq<char>,
> {
    if failures_of(attempts).len() == 0 {
        Ok(exported_of(attempts))
    } else {
        Err("部分文件导出失败: "@ + joined(failures_of(attempts), ", "@))
    }
}

/// Sums up a batch of exports.
pub fn batch_result(attempts: &Vec<ExportAttempt>) -> (r: Result<Vec<String>, String>)
    ensures
        match r {
            Ok(copies) => batch_result_of(attempts@) == Ok::<Seq<Seq<char>>, Seq<char>>(
                texts(copies@),
            ),
            Err(report) => batch_result_of(attempts@) == Err::<Seq<Seq<char>>, Seq<char>>(report@),
        },
{
    let mut copies: Vec<String> = Vec::new();
    let mut failures: Vec<String> = Vec::new();
    let mut index: usize = 0;
    assert(texts(copies@) =~= exported_of(attempts@.take(0)));
    assert(texts(failures@) =~= failures_of(attempts@.take(0)));
    while index < attempts.len()
        invariant
            index <= attempts@.len(),
            texts(copies@) == exported_of(attempts@.take(index as int)),
            texts(failures@) == failures_of(attempts@.take(index as int)),
        decreases attempts@.len() - index,
    {
        proof {
            assert(attempts@.take(index + 1).drop_last() =~= attempts@.take(index as int));
            assert(attempts@.take(index + 1).last() == attempts@[index as int]);
        }
        let ghost copies_before = texts(copies@);
        let ghost failures_before = texts(failures@);
        let attempt: &ExportAttempt = &attempts[index];
        match &attempt.result {
            Ok(path) => {
                copies.push(path.clone());
                assert(texts(copies@) =~= copies_before.push(path@));
            },
            Err(reason) => {
                let head = join3("导出文件 ", attempt.source.as_str(), " 失败: ");
                failures.push(join2(head.as_str(), reason.as_str()));
                assert(texts(failures@) =~= failures_before.push(
                    attempt_failure(attempt.source@, reason@),
                ));
            },
        }
        index = index + 1;
    }
    assert(attempts@.take(index as int) =~= attempts@);
    if failures.len() == 0 {
        Ok(copies)
    } else {
        let list = join_with(&failures, ", ");
        Err(join2("部分文件导出失败: ", list.as_str()))
    }
}

/// The desktop platforms.
#[derive(Debug, Clone, Copy, PartialEq, Eq, Structural)]
pub enum Platform {
    MacOs,
    Windows,
    Linux,
}

/// The program that shows a folder in the platform's file manager.
pub open spec fn folder_opener_of(platform: Platform) -> Seq<char> {
    match platform {
        Platform::MacOs => "open"@,
        Platform::Windows => "explorer"@,
        Platform::Linux => "xdg-open"@,
    }
}

/// The program that shows a folder in the platform's file manager. It is
/// started with the folder as its one argument and not waited for.
pub fn folder_opener(platform: Platform) -> (program: &'static str)
    ensures
        program@ == folder_opener_of(platform),
{
    match platform {
        Platform::MacOs => "open",
        Platform::Windows => "explorer",
        Platform::Linux => "xdg-open",
    }
}

/// The report of a target folder that could not be created.
pub fn folder_creation_failure(detail: &str) -> (report: String)
    ensures
        report@ == "创建目标目录失败: "@ + detail@,
{
    join2("创建目标目录失败: ", detail)
}

/// The report of a folder that does not exist.
pub fn folder_missing(folder: &str) -> (report: String)
    ensures
        report@ == "文件夹不存在: "@ + folder@,
{
    join2("文件夹不存在: ", folder)
}

/// The report of a file manager that did not start.
pub fn opener_failure(detail: &str) -> (report: String)
    ensures
        report@ == "打开文件夹失败: "@ + detail@,
{
    join2("打开文件夹失败: ", detail)
}

/// The report of a file that does not exist.
pub fn file_missing(path: &str) -> (report: String)
    ensures
        report@ == "文件不存在: "@ + path@,
{
    join2("文件不存在: ", path)
}

/// The report of a file whose properties could not be read.
pub fn file_info_failure(detail: &str) -> (report: String)
    ensures
        report@ == "获取文件信息失败: "@ + detail@,
{
    join2("获取文件信息失败: ", detail)
}

/// Describes a file from its path, its name and what the file system tells
/// of it. A file without a name has the empty name.
pub fn file_info_named(
    path: &str,
    name: Option<String>,
    size: u64,
    is_dir: bool,
    created: Option<u64>,
    modified: Option<u64>,
) -> (info: FileInfo)
    ensures
        info.path@ == path@,
        info.name@ == or_empty(text_of(name)),
        info.size == size,
        info.is_dir == is_dir,
        info.created == created,
        info.modified == modified,
{
    let name = match name {
        Some(name) => name,
        None => String::new(),
    };
    FileInfo { path: String::from_str(path), name, size, is_dir, created, modified }
}

/// Describes a file from what the file system tells of it. The name is the
/// last component of the path, or empty where the path has none.
pub fn file_info(
    path: &str,
    size: u64,
    is_dir: bool,
    created: Option<u64>,
    modified: Option<u64>,
) -> (info: FileInfo)
    ensures
        info.path@ == path@,
        info.name@ == or_empty(file_name_of(path@)),
        info.size == size,
        info.is_dir == is_dir,
        info.created == created,
        info.modified == modified,
{
    file_info_named(path, file_name(path), size, is_dir, created, modified)
}

} // verus!
