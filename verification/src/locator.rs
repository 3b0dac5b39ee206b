//! The locator: where the media tool is looked for, and in which order.
//!
//! The places are tried one after the other and the first that exists wins:
//! a fixed list of relative paths (next to the program and its ancestors,
//! then a `resources` directory at the same depths, then the working
//! directory), the application's resource directory, and at last the
//! directories of the search path. A place counts as soon as it exists;
//! whether it can be executed is not asked. Whichever place wins, its path
//! is made absolute before it is handed back, and handed back as it is only
//! where that cannot be done. Where no place has the tool the search fails:
//! there is nothing to fall back on.
//!
//! [`locate_step`] decides; the caller probes the file system and reports.

use crate::paths::{join_path, joined_path};
use crate::types::text_of;
use vstd::prelude::*;

verus! {

/// The name of the media tool.
pub open spec fn tool_name() -> Seq<char> {
    "ffmpeg"@
}

/// The relative paths that are tried first, in this order.
pub open spec fn candidates() -> Seq<Seq<char>> {
    seq![
        "../../../ffmpeg"@,
        "../../ffmpeg"@,
        "../ffmpeg"@,
        "resources/ffmpeg"@,
        "../resources/ffmpeg"@,
        "../../resources/ffmpeg"@,
        "../../../resources/ffmpeg"@,
        "./ffmpeg"@,
        "ffmpeg"@,
    ]
}

/// The reason given where the tool is nowhere.
pub open spec fn tool_not_found() -> Seq<char> {
    "未找到ffmpeg可执行文件"@
}

/// The number of relative paths that are tried.
pub const CANDIDATE_COUNT: usize = 9;

/// The relative path that is tried at the given turn.
fn candidate(index: usize) -> (path: &'static str)
    requires
        index < CANDIDATE_COUNT,
    ensures
        path@ == candidates()[index as int],
{
    if index == 0 {
        "../../../ffmpeg"
    } else if index == 1 {
        "../../ffmpeg"
    } else if index == 2 {
        "../ffmpeg"
    } else if index == 3 {
        "resources/ffmpeg"
    } else if index == 4 {
        "../resources/ffmpeg"
    } else if index == 5 {
        "../../resources/ffmpeg"
    } else if index == 6 {
        "../../../resources/ffmpeg"
    } else if index == 7 {
        "./ffmpeg"
    } else {
        "ffmpeg"
    }
}

/// All relative paths that are tried, in order.
pub fn candidate_paths() -> (paths: Vec<String>)
    ensures
        paths@.map_values(|p: String| p@) == candidates(),
{
    let mut paths: Vec<String> = Vec::new();
    let mut index: usize = 0;
    while index < CANDIDATE_COUNT
        invariant
            index <= CANDIDATE_COUNT,
            paths@.len() == index,
            forall|i: int| 0 <= i < index ==> (#[trigger] paths@[i])@ == candidates()[i],
        decreases CANDIDATE_COUNT - index,
    {
        paths.push(String::from_str(candidate(index)));
        index = index + 1;
    }
    assert(paths@.map_values(|p: String| p@) =~= candidates());
    paths
}

/// Where a search stands.
#[derive(Debug, Clone, PartialEq, Eq)]
pub enum LocateState {
    /// Nothing has been tried yet.
    Start,
    /// The caller is looking whether the relative path at `index` exists.
    Probing { index: usize },
    /// The tool is at `path`, which is being made absolute.
    Canonicalizing { path: String },
    /// The caller is asked for the application's resource directory.
    AskingResourceDir,
    /// The caller is looking whether the tool is in the resource directory,
    /// at `path`.
    ProbingResource { path: String },
    /// The caller is searching the search path.
    SearchingPath,
    /// The search ended with a path.
    Found,
    /// The search ended without one.
    NotFound,
}

/// What a [`LocateState`] holds, as mathematical values.
pub enum LocateStateView {
    Start,
    Probing { index: usize },
    Canonicalizing { path: Seq<char> },
    AskingResourceDir,
    ProbingResource { path: Seq<char> },
    SearchingPath,
    Found,
    NotFound,
}

impl View for LocateState {
    type V = LocateStateView;

    open spec fn view(&self) -> LocateStateView {
        match self {
            LocateState::Start => LocateStateView::Start,
            LocateState::Probing { index } => LocateStateView::Probing { index: *index },
            LocateState::Canonicalizing { path } => LocateStateView::Canonicalizing {
                path: path@,
            },
            LocateState::AskingResourceDir => LocateStateView::AskingResourceDir,
            LocateState::ProbingResource { path } => LocateStateView::ProbingResource {
                path: path@,
            },
            LocateState::SearchingPath => LocateStateView::SearchingPath,
            LocateState::Found => LocateStateView::Found,
            LocateState::NotFound => LocateStateView::NotFound,
        }
    }
}

/// What the caller reports back.
#[derive(Debug, Clone, PartialEq, Eq)]
pub enum LocateEvent {
    /// The search is to begin.
    Begin,
    /// Whether the probed path exists.
    Probed(bool),
    /// The absolute form of the path, if it could be had.
    Canonical(Option<String>),
    /// The application's resource directory, if there is one.
    ResourceDir(Option<String>),
    /// Where the search path has the tool, if anywhere.
    Searched(Option<String>),
}

/// What a [`LocateEvent`] holds, as mathematical values.
pub enum LocateEventView {
    Begin,
    Probed(bool),
    Canonical(Option<Seq<char>>),
    ResourceDir(Option<Seq<char>>),
    Searched(Option<Seq<char>>),
}

impl View for LocateEvent {
    type V = LocateEventView;

    open spec fn view(&self) -> LocateEventView {
        match self {
            LocateEvent::Begin => LocateEventView::Begin,
            LocateEvent::Probed(b) => LocateEventView::Probed(*b),
            LocateEvent::Canonical(p) => LocateEventView::Canonical(text_of(*p)),
            LocateEvent::ResourceDir(p) => LocateEventView::ResourceDir(text_of(*p)),
            LocateEvent::Searched(p) => LocateEventView::Searched(text_of(*p)),
        }
    }
}

/// What the caller is to do next.
#[derive(Debug, PartialEq, Eq)]
pub enum LocateAction {
    /// Look whether the path exists, then report `Probed`.
    Probe(String),
    /// Make the path absolute, then report `Canonical`.
    Canonicalize(String),
    /// Find the application's resource directory, then report `ResourceDir`.
    AskResourceDir,
    /// Search the search path for an executable of this name, then report
    /// `Searched`.
    SearchPath(String),
    /// The search is over: the tool's path, or the reason why there is none.
    Finish(Result<String, String>),
}

/// What a [`LocateAction`] holds, as mathematical values.
pub enum LocateActionView {
    Probe(Seq<char>),
    Canonicalize(Seq<char>),
    AskResourceDir,
    SearchPath(Seq<char>),
    Finish(Result<Seq<char>, Seq<char>>),
}

impl View for LocateAction {
    type V = LocateActionView;

    open spec fn view(&self) -> LocateActionView {
        match self {
            LocateAction::Probe(p) => LocateActionView::Probe(p@),
            LocateAction::Canonicalize(p) => LocateActionView::Canonicalize(p@),
            LocateAction::AskResourceDir => LocateActionView::AskResourceDir,
            LocateAction::SearchPath(n) => LocateActionView::SearchPath(n@),
            LocateAction::Finish(r) => LocateActionView::Finish(
                match r {
                    Ok(p) => Ok(p@),
                    Err(e) => Err(e@),
                },
            ),
        }
    }
}

/// The machine's answer where the search finds the tool.
pub open spec fn found(path: Seq<char>) -> (LocateStateView, LocateActionView) {
    (LocateStateView::Found, LocateActionView::Finish(Ok(path)))
}

/// The machine's answer where the search gives up.
pub open spec fn not_found() -> (LocateStateView, LocateActionView) {
    (LocateStateView::NotFound, LocateActionView::Finish(Err(tool_not_found())))
}

/// The machine's answer where the tool is at `path`: the path is made
/// absolute.
pub open spec fn canonicalize(path: Seq<char>) -> (LocateStateView, LocateActionView) {
    (LocateStateView::Canonicalizing { path }, LocateActionView::Canonicalize(path))
}

/// The path that is handed back for a hit: its absolute form, or the hit
/// itself where it has none.
pub open spec fn absolute_or(path: Seq<char>, absolute: Option<Seq<char>>) -> Seq<char> {
    match absolute {
        Some(p) => p,
        None => path,
    }
}

/// The machine's answer where the tool may be at `path` in the resource
/// directory.
pub open spec fn probe_resource(path: Seq<char>) -> (LocateStateView, LocateActionView) {
    (LocateStateView::ProbingResource { path }, LocateActionView::Probe(path))
}

/// The machine's answer where the search path is all that is left.
pub open spec fn search_path() -> (LocateStateView, LocateActionView) {
    (LocateStateView::SearchingPath, LocateActionView::SearchPath(tool_name()))
}

/// The machine: the state and action that follow a state and an event. An
/// event that the state does not wait for ends the search without a result.
pub open spec fn locate_next(state: LocateStateView, event: LocateEventView) -> (
    LocateStateView,
    LocateActionView,
) {
    match (state, event) {
        (LocateStateView::Start, LocateEventView::Begin) => (
            LocateStateView::Probing { index: 0 },
            LocateActionView::Probe(candidates()[0]),
        ),
        (LocateStateView::Probing { index }, LocateEventView::Probed(exists)) => {
            if index >= CANDIDATE_COUNT {
                not_found()
            } else if exists {
                canonicalize(candidates()[index as int])
            } else if index + 1 < CANDIDATE_COUNT {
                (
                    LocateStateView::Probing { index: (index + 1) as usize },
                    LocateActionView::Probe(candidates()[index + 1]),
                )
            } else {
                (LocateStateView::AskingResourceDir, LocateActionView::AskResourceDir)
            }
        },
        (LocateStateView::Canonicalizing { path }, LocateEventView::Canonical(absolute)) => found(
            absolute_or(path, absolute),
        ),
        (
            LocateStateView::AskingResourceDir,
            LocateEventView::ResourceDir(Some(dir)),
        ) => probe_resource(joined_path(dir, tool_name())),
        (LocateStateView::AskingResourceDir, LocateEventView::ResourceDir(None)) => search_path(),
        (LocateStateView::ProbingResource { path }, LocateEventView::Probed(exists)) => {
            if exists {
                canonicalize(path)
            } else {
                search_path()
            }
        },
        (LocateStateView::SearchingPath, LocateEventView::Searched(Some(path))) => canonicalize(
            path,
        ),
        _ => not_found(),
    }
}

fn give_up() -> (r: (LocateState, LocateAction))
    ensures
        (r.0@, r.1@) == not_found(),
{
    (LocateState::NotFound, LocateAction::Finish(Err(String::from_str("未找到ffmpeg可执行文件"))))
}

fn try_search_path() -> (r: (LocateState, LocateAction))
    ensures
        (r.0@, r.1@) == search_path(),
{
    (LocateState::SearchingPath, LocateAction::SearchPath(String::from_str("ffmpeg")))
}

/// The step that looks for the tool at `path` in the resource directory.
pub fn probe_resource_at(path: String) -> (r: (LocateState, LocateAction))
    ensures
        (r.0@, r.1@) == probe_resource(path@),
{
    let probe = path.clone();
    (LocateState::ProbingResource { path }, LocateAction::Probe(probe))
}

fn make_absolute(path: String) -> (r: (LocateState, LocateAction))
    ensures
        (r.0@, r.1@) == canonicalize(path@),
{
    let hit = path.clone();
    (LocateState::Canonicalizing { path }, LocateAction::Canonicalize(hit))
}

fn finish_with(path: String) -> (r: (LocateState, LocateAction))
    ensures
        (r.0@, r.1@) == found(path@),
{
    (LocateState::Found, LocateAction::Finish(Ok(path)))
}

/// Advances a search by one event. The first call takes
/// [`LocateState::Start`] and [`LocateEvent::Begin`]. A search ends with a
/// path only after the caller was asked for the absolute form of the hit.
pub fn locate_step(state: LocateState, event: LocateEvent) -> (r: (LocateState, LocateAction))
    ensures
        (r.0@, r.1@) == locate_next(state@, event@),
        r.1@ matches LocateActionView::Finish(Ok(path)) ==> state@ matches LocateStateView::Canonicalizing {
            path: hit,
        } && event@ matches LocateEventView::Canonical(absolute) && path == absolute_or(
            hit,
            absolute,
        ),
{
    match (state, event) {
        (LocateState::Start, LocateEvent::Begin) => (
            LocateState::Probing { index: 0 },
            LocateAction::Probe(String::from_str(candidate(0))),
        ),
        (LocateState::Probing { index }, LocateEvent::Probed(exists)) => {
            if index >= CANDIDATE_COUNT {
                give_up()
            } else if exists {
                make_absolute(String::from_str(candidate(index)))
            } else if index + 1 < CANDIDATE_COUNT {
                (
                    LocateState::Probing { index: index + 1 },
                    LocateAction::Probe(String::from_str(candidate(index + 1))),
                )
            } else {
                (LocateState::AskingResourceDir, LocateAction::AskResourceDir)
            }
        },
        (LocateState::Canonicalizing { path }, LocateEvent::Canonical(absolute)) => {
            match absolute {
                Some(absolute) => finish_with(absolute),
                None => finish_with(path),
            }
        },
        (LocateState::AskingResourceDir, LocateEvent::ResourceDir(Some(dir))) => {
            probe_resource_at(join_path(dir.as_str(), "ffmpeg"))
        },
        (LocateState::AskingResourceDir, LocateEvent::ResourceDir(None)) => try_search_path(),
        (LocateState::ProbingResource { path }, LocateEvent::Probed(exists)) => {
            if exists {
                make_absolute(path)
            } else {
                try_search_path()
            }
        },
        (LocateState::SearchingPath, LocateEvent::Searched(Some(path))) => make_absolute(path),
        _ => give_up(),
    }
}

/// What is installed where: the surroundings of a search.
pub struct Installation {
    /// The paths that exist.
    pub present: Set<Seq<char>>,
    /// The absolute form of a path, where it can be had.
    pub canonical: spec_fn(Seq<char>) -> Option<Seq<char>>,
    /// The application's resource directory, if there is one.
    pub resource_dir: Option<Seq<char>>,
    /// Where the search path has the tool, if anywhere.
    pub on_path: Option<Seq<char>>,
}

/// The event that an action leads to in an installation.
pub open spec fn locate_answer(site: Installation, action: LocateActionView) -> LocateEventView {
    match action {
        LocateActionView::Probe(path) => LocateEventView::Probed(site.present.contains(path)),
        LocateActionView::Canonicalize(path) => LocateEventView::Canonical((site.canonical)(path)),
        LocateActionView::AskResourceDir => LocateEventView::ResourceDir(site.resource_dir),
        LocateActionView::SearchPath(_) => LocateEventView::Searched(site.on_path),
        LocateActionView::Finish(_) => LocateEventView::Begin,
    }
}

/// The rest of a search: performs `action` and whatever follows, for at
/// most `fuel` actions before the last.
pub open spec fn locate_from(
    site: Installation,
    state: LocateStateView,
    action: LocateActionView,
    fuel: nat,
) -> Option<Result<Seq<char>, Seq<char>>>
    decreases fuel,
{
    match action {
        LocateActionView::Finish(result) => Some(result),
        _ => if fuel == 0 {
            None
        } else {
            let following = locate_next(state, locate_answer(site, action));
            locate_from(site, following.0, following.1, (fuel - 1) as nat)
        },
    }
}

/// The most actions that a search performs before it ends: nine probes, the
/// question for the resource directory, the probe there, the search of the
/// search path, and making the hit absolute.
pub open spec fn longest_search() -> nat {
    13
}

/// A whole search, from its first step.
pub open spec fn locate(site: Installation) -> Option<Result<Seq<char>, Seq<char>>> {
    let first = locate_next(LocateStateView::Start, LocateEventView::Begin);
    locate_from(site, first.0, first.1, longest_search())
}

/// The path that a search hands back for a hit at `path`: its absolute form
/// where the installation has one, else the hit itself.
pub open spec fn handed_back(site: Installation, path: Seq<char>) -> Seq<char> {
    absolute_or(path, (site.canonical)(path))
}

/// The first relative path, from the given turn on, that exists.
pub open spec fn first_present(site: Installation, from: int) -> Option<int>
    decreases CANDIDATE_COUNT - from,
{
    if from < 0 || from >= CANDIDATE_COUNT {
        None
    } else if site.present.contains(candidates()[from]) {
        Some(from)
    } else {
        first_present(site, from + 1)
    }
}

/// The place that has the tool where none of the relative paths exists: the
/// resource directory if the tool is there, else where the search path has
/// it, else nowhere.
pub open spec fn hit_elsewhere(site: Installation) -> Option<Seq<char>> {
    if site.resource_dir is Some && site.present.contains(
        joined_path(site.resource_dir->0, tool_name()),
    ) {
        Some(joined_path(site.resource_dir->0, tool_name()))
    } else {
        site.on_path
    }
}

/// The first place, from the given turn on, that has the tool: the first
/// relative path that exists, else what is found elsewhere.
pub open spec fn hit_from(site: Installation, from: int) -> Option<Seq<char>> {
    match first_present(site, from) {
        Some(i) => Some(candidates()[i]),
        None => hit_elsewhere(site),
    }
}

/// What a search finds where none of the relative paths exists: the tool in
/// the resource directory if it is there, else the tool on the search path,
/// either in its absolute form where that can be had; else nothing.
pub open spec fn located_elsewhere(site: Installation) -> Result<Seq<char>, Seq<char>> {
    match hit_elsewhere(site) {
        Some(path) => Ok(handed_back(site, path)),
        None => Err(tool_not_found()),
    }
}

/// What a search finds from the given turn on: the first place that has the
/// tool, in its absolute form where that can be had.
pub open spec fn located_from(site: Installation, from: int) -> Result<Seq<char>, Seq<char>> {
    match hit_from(site, from) {
        Some(path) => Ok(handed_back(site, path)),
        None => Err(tool_not_found()),
    }
}

/// What a search finds.
pub open spec fn located(site: Installation) -> Result<Seq<char>, Seq<char>> {
    located_from(site, 0)
}

/// The first relative path that exists is the one before which none exists.
pub proof fn lemma_first_present(site: Installation, from: int)
    requires
        0 <= from <= CANDIDATE_COUNT,
    ensures
        match first_present(site, from) {
            Some(i) => from <= i < CANDIDATE_COUNT && site.present.contains(candidates()[i])
                && forall|j: int| from <= j < i ==> !site.present.contains(#[trigger] candidates()[j]),
            None => forall|j: int|
                from <= j < CANDIDATE_COUNT ==> !site.present.contains(#[trigger] candidates()[j]),
        },
    decreases CANDIDATE_COUNT - from,
{
    if from < CANDIDATE_COUNT && !site.present.contains(candidates()[from]) {
        lemma_first_present(site, from + 1);
    }
}

/// Whatever place wins, what the search hands back is the absolute form of
/// that place, wherever the installation can give one: no hit is handed back
/// as found while it has an absolute form.
pub proof fn lemma_hit_is_made_absolute(site: Installation)
    ensures
        match hit_from(site, 0) {
            Some(path) => locate(site) == Some(
                Ok::<Seq<char>, Seq<char>>(
                    match (site.canonical)(path) {
                        Some(absolute) => absolute,
                        None => path,
                    },
                ),
            ),
            None => locate(site) == Some(Err::<Seq<char>, Seq<char>>(tool_not_found())),
        },
{
    lemma_locate_finds_first(site);
}

/// Where none of the relative paths exists, the resource directory does not
/// hold the tool and the search path does not have it, the search fails.
pub proof fn lemma_nowhere_is_not_found(site: Installation)
    requires
        forall|i: int|
            0 <= i < CANDIDATE_COUNT ==> !site.present.contains(#[trigger] candidates()[i]),
        site.resource_dir is Some ==> !site.present.contains(
            joined_path(site.resource_dir->0, tool_name()),
        ),
        site.on_path is None,
    ensures
        locate(site) == Some(Err::<Seq<char>, Seq<char>>(tool_not_found())),
{
    lemma_locate_finds_first(site);
    lemma_first_present(site, 0);
}

proof fn lemma_locate_from(site: Installation, index: usize, fuel: nat)
    requires
        index < CANDIDATE_COUNT,
        fuel >= CANDIDATE_COUNT - index + 4,
    ensures
        locate_from(
            site,
            LocateStateView::Probing { index },
            LocateActionView::Probe(candidates()[index as int]),
            fuel,
        ) == Some(located_from(site, index as int)),
    decreases CANDIDATE_COUNT - index,
{
    reveal_with_fuel(locate_from, 6);
    reveal_with_fuel(first_present, 2);
    let state = LocateStateView::Probing { index };
    let action = LocateActionView::Probe(candidates()[index as int]);
    let following = locate_next(state, locate_answer(site, action));
    assert(locate_from(site, state, action, fuel) == locate_from(
        site,
        following.0,
        following.1,
        (fuel - 1) as nat,
    ));
    if site.present.contains(candidates()[index as int]) {
        assert(first_present(site, index as int) == Some(index as int));
    } else if index + 1 < CANDIDATE_COUNT {
        lemma_locate_from(site, (index + 1) as usize, (fuel - 1) as nat);
        assert(first_present(site, index as int) == first_present(site, index + 1));
    } else {
        assert(first_present(site, index as int) is None);
    }
}

/// Every search ends, and it finds the first place that has the tool: the
/// first relative path that exists, else the resource directory, else the
/// search path.
pub proof fn lemma_locate_finds_first(site: Installation)
    ensures
        locate(site) == Some(located(site)),
{
    lemma_locate_from(site, 0, longest_search());
}

} // verus!
