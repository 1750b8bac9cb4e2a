//! The work done in the background when the main window opens, as a state
//! machine: each step takes the outcome of the task asked for before and says
//! what to report and which task to run next.
//!
//! The order is: the background picture (only when needed), the components
//! index (checked, then synced from the first server that answers), the patch
//! folder (the same), the main patch, the game version; then the launcher state
//! is loaded and the launcher marked ready.

use vstd::prelude::*;

verus! {

/// Work that only the caller can do (it needs the network or the disk).
#[derive(Clone, Copy, Debug)]
pub enum Task {
    DownloadBackground,
    /// Tell whether the local components index is in sync with its servers.
    CheckComponentsIndex,
    /// Sync the components index from the server with this index.
    SyncComponentsIndex(usize),
    /// Tell whether the local patch folder is in sync with its servers.
    CheckPatchFolder,
    /// Sync the patch folder from the server with this index.
    SyncPatchFolder(usize),
    FetchMainPatch,
    FetchGameDiff,
    MarkReady,
}

/// A description shown on the loading page.
#[derive(Clone, Copy, Debug)]
pub enum LoadingStep {
    BackgroundPicture,
    ComponentsIndex,
    PatchStatus,
    GameVersion,
}

/// A failure that is reported in a toast.
#[derive(Clone, Copy, Debug)]
pub enum Failure {
    BackgroundDownload,
    ComponentsIndexVerify,
    ComponentsIndexSync,
    PatchStateCheck,
    PatchSync,
    PatchInfoFetch,
    GameDiffFind,
}

/// What one step asks for, in order.
pub enum StartupAction<D, P> {
    /// Show this description on the loading page.
    Loading(LoadingStep),
    /// Report the failure with its error text.
    Failed(Failure, String),
    /// Report an updated components index, described by
    /// `changes::format_changes` of these changes.
    ComponentsUpdated(Vec<String>),
    /// Hand the main patch to the window (`AppMsg::SetMainPatch`).
    SetMainPatch(Option<P>),
    /// Hand the game version to the window (`AppMsg::SetGameDiff`).
    SetGameDiff(Option<D>),
    /// Ask the window to load the launcher state with the loading page shown.
    UpdateLauncherState,
    Run(Task),
}

/// The outcome of a task.
pub enum StartupEvent<D, P> {
    BackgroundDownloaded(Result<(), String>),
    /// `Ok(true)` when the index is in sync.
    ComponentsIndexChecked(Result<bool, String>),
    /// The changes that the sync brought.
    ComponentsIndexSynced(Result<Vec<String>, String>),
    /// `Ok(true)` when the folder is in sync.
    PatchFolderChecked(Result<bool, String>),
    PatchFolderSynced(Result<(), String>),
    MainPatchFetched(Result<P, String>),
    GameDiffFetched(Result<D, String>),
}

/// The task whose outcome the machine waits for.
#[derive(Clone, Copy, Debug)]
pub enum Stage {
    DownloadingBackground,
    CheckingComponents,
    SyncingComponents(usize),
    CheckingPatch,
    SyncingPatch(usize),
    FetchingMainPatch,
    FetchingGameDiff,
    Done,
}

/// The startup sequence.
#[derive(Clone, Copy, Debug)]
pub struct Startup {
    pub stage: Stage,
    /// Number of components index servers.
    pub component_servers: usize,
    /// Number of patch servers.
    pub patch_servers: usize,
}

impl LoadingStep {
    pub open spec fn spec_key(self) -> Seq<char> {
        match self {
            LoadingStep::BackgroundPicture => "downloading-background-picture"@,
            LoadingStep::ComponentsIndex => "updating-components-index"@,
            LoadingStep::PatchStatus => "loading-patch-status"@,
            LoadingStep::GameVersion => "loading-game-version"@,
        }
    }

    /// I18n key of the description.
    pub fn key(&self) -> (key: &'static str)
        ensures
            key@ == self.spec_key(),
    {
        match self {
            LoadingStep::BackgroundPicture => "downloading-background-picture",
            LoadingStep::ComponentsIndex => "updating-components-index",
            LoadingStep::PatchStatus => "loading-patch-status",
            LoadingStep::GameVersion => "loading-game-version",
        }
    }
}

impl Failure {
    pub open spec fn spec_key(self) -> Seq<char> {
        match self {
            Failure::BackgroundDownload => "background-downloading-failed"@,
            Failure::ComponentsIndexVerify => "components-index-verify-failed"@,
            Failure::ComponentsIndexSync => "components-index-sync-failed"@,
            Failure::PatchStateCheck => "patch-state-check-failed"@,
            Failure::PatchSync => "patch-sync-failed"@,
            Failure::PatchInfoFetch => "patch-info-fetching-error"@,
            Failure::GameDiffFind => "game-diff-finding-error"@,
        }
    }

    /// I18n key of the toast's title.
    pub fn key(&self) -> (key: &'static str)
        ensures
            key@ == self.spec_key(),
    {
        match self {
            Failure::BackgroundDownload => "background-downloading-failed",
            Failure::ComponentsIndexVerify => "components-index-verify-failed",
            Failure::ComponentsIndexSync => "components-index-sync-failed",
            Failure::PatchStateCheck => "patch-state-check-failed",
            Failure::PatchSync => "patch-sync-failed",
            Failure::PatchInfoFetch => "patch-info-fetching-error",
            Failure::GameDiffFind => "game-diff-finding-error",
        }
    }
}

/// I18n key of the toast that reports an updated components index.
pub open spec fn components_updated_key() -> Seq<char> {
    "components-index-updated"@
}

pub fn components_updated_key_text() -> (key: &'static str)
    ensures
        key@ == components_updated_key(),
{
    "components-index-updated"
}

/// `s` waiting at `stage`.
pub open spec fn with_stage(s: Startup, stage: Stage) -> Startup {
    Startup { stage, ..s }
}

/// Start of the components index part.
pub open spec fn begin_components<D, P>() -> Seq<StartupAction<D, P>> {
    seq![StartupAction::Loading(LoadingStep::ComponentsIndex), StartupAction::Run(Task::CheckComponentsIndex)]
}

/// Start of the patch part.
pub open spec fn begin_patch<D, P>() -> Seq<StartupAction<D, P>> {
    seq![StartupAction::Loading(LoadingStep::PatchStatus), StartupAction::Run(Task::CheckPatchFolder)]
}

/// Start of the game version part.
pub open spec fn begin_game_version<D, P>() -> Seq<StartupAction<D, P>> {
    seq![StartupAction::Loading(LoadingStep::GameVersion), StartupAction::Run(Task::FetchGameDiff)]
}

/// Report of a failure, if there was one.
pub open spec fn report<D, P, T>(result: Result<T, String>, failure: Failure) -> Seq<StartupAction<D, P>> {
    match result {
        Ok(_) => Seq::empty(),
        Err(e) => seq![StartupAction::Failed(failure, e)],
    }
}

/// Sync of the components index from server `i`, or the patch part when no
/// server is left.
pub open spec fn try_component_server<D, P>(s: Startup, i: int) -> (Startup, Seq<StartupAction<D, P>>) {
    if 0 <= i < s.component_servers {
        (with_stage(s, Stage::SyncingComponents(i as usize)), seq![StartupAction::Run(Task::SyncComponentsIndex(i as usize))])
    } else {
        (with_stage(s, Stage::CheckingPatch), begin_patch())
    }
}

/// Sync of the patch folder from server `i`, or fetching the main patch when no
/// server is left.
pub open spec fn try_patch_server<D, P>(s: Startup, i: int) -> (Startup, Seq<StartupAction<D, P>>) {
    if 0 <= i < s.patch_servers {
        (with_stage(s, Stage::SyncingPatch(i as usize)), seq![StartupAction::Run(Task::SyncPatchFolder(i as usize))])
    } else {
        (with_stage(s, Stage::FetchingMainPatch), seq![StartupAction::Run(Task::FetchMainPatch)])
    }
}

/// Prepends `first` to the actions of `next`.
pub open spec fn after<D, P>(first: Seq<StartupAction<D, P>>, next: (Startup, Seq<StartupAction<D, P>>)) -> (Startup, Seq<StartupAction<D, P>>) {
    (next.0, first + next.1)
}

/// How the sequence starts: with the background picture when it is needed,
/// with the components index otherwise.
pub open spec fn spec_start<D, P>(download_picture: bool, component_servers: usize, patch_servers: usize) -> (Startup, Seq<StartupAction<D, P>>) {
    let s = Startup { stage: Stage::DownloadingBackground, component_servers, patch_servers };
    if download_picture {
        (s, seq![StartupAction::Loading(LoadingStep::BackgroundPicture), StartupAction::Run(Task::DownloadBackground)])
    } else {
        (with_stage(s, Stage::CheckingComponents), begin_components())
    }
}

/// One step: the new state and the actions, for the outcome `event` in state
/// `s`. An outcome that the current stage does not wait for changes nothing.
pub open spec fn spec_step<D, P>(s: Startup, event: StartupEvent<D, P>) -> (Startup, Seq<StartupAction<D, P>>) {
    match (s.stage, event) {
        (Stage::DownloadingBackground, StartupEvent::BackgroundDownloaded(r)) => (
            with_stage(s, Stage::CheckingComponents),
            report(r, Failure::BackgroundDownload) + begin_components(),
        ),
        (Stage::CheckingComponents, StartupEvent::ComponentsIndexChecked(r)) => match r {
            Ok(true) => (with_stage(s, Stage::CheckingPatch), begin_patch()),
            Ok(false) => try_component_server(s, 0),
            Err(e) => (
                with_stage(s, Stage::CheckingPatch),
                seq![StartupAction::Failed(Failure::ComponentsIndexVerify, e)] + begin_patch(),
            ),
        },
        (Stage::SyncingComponents(i), StartupEvent::ComponentsIndexSynced(r)) => match r {
            Ok(changes) => (
                with_stage(s, Stage::CheckingPatch),
                seq![StartupAction::ComponentsUpdated(changes)] + begin_patch(),
            ),
            Err(e) => after(
                seq![StartupAction::Failed(Failure::ComponentsIndexSync, e)],
                try_component_server(s, i + 1),
            ),
        },
        (Stage::CheckingPatch, StartupEvent::PatchFolderChecked(r)) => match r {
            Ok(true) => (with_stage(s, Stage::FetchingMainPatch), seq![StartupAction::Run(Task::FetchMainPatch)]),
            Ok(false) => try_patch_server(s, 0),
            Err(e) => (
                with_stage(s, Stage::FetchingMainPatch),
                seq![StartupAction::Failed(Failure::PatchStateCheck, e), StartupAction::Run(Task::FetchMainPatch)],
            ),
        },
        (Stage::SyncingPatch(i), StartupEvent::PatchFolderSynced(r)) => match r {
            Ok(()) => (with_stage(s, Stage::FetchingMainPatch), seq![StartupAction::Run(Task::FetchMainPatch)]),
            Err(e) => after(seq![StartupAction::Failed(Failure::PatchSync, e)], try_patch_server(s, i + 1)),
        },
        (Stage::FetchingMainPatch, StartupEvent::MainPatchFetched(r)) => (
            with_stage(s, Stage::FetchingGameDiff),
            match r {
                Ok(patch) => seq![StartupAction::SetMainPatch(Some(patch))],
                Err(e) => seq![
                    StartupAction::Failed(Failure::PatchInfoFetch, e),
                    StartupAction::SetMainPatch(None),
                ],
            } + begin_game_version(),
        ),
        (Stage::FetchingGameDiff, StartupEvent::GameDiffFetched(r)) => (
            with_stage(s, Stage::Done),
            match r {
                Ok(diff) => seq![StartupAction::SetGameDiff(Some(diff))],
                Err(e) => seq![StartupAction::Failed(Failure::GameDiffFind, e), StartupAction::SetGameDiff(None)],
            } + seq![StartupAction::UpdateLauncherState, StartupAction::Run(Task::MarkReady)],
        ),
        _ => (s, Seq::empty()),
    }
}

impl Startup {
    /// Starts the sequence; `download_picture` tells whether the background
    /// picture has to be downloaded first.
    pub fn start<D, P>(download_picture: bool, component_servers: usize, patch_servers: usize) -> (res: (
        Startup,
        Vec<StartupAction<D, P>>,
    ))
        ensures
            (res.0, res.1@) == spec_start::<D, P>(download_picture, component_servers, patch_servers),
    {
        let s = Startup { stage: Stage::DownloadingBackground, component_servers, patch_servers };
        let mut actions: Vec<StartupAction<D, P>> = Vec::new();
        if download_picture {
            actions.push(StartupAction::Loading(LoadingStep::BackgroundPicture));
            actions.push(StartupAction::Run(Task::DownloadBackground));
            proof {
                assert(actions@ =~= spec_start::<D, P>(download_picture, component_servers, patch_servers).1);
            }
            (s, actions)
        } else {
            actions.push(StartupAction::Loading(LoadingStep::ComponentsIndex));
            actions.push(StartupAction::Run(Task::CheckComponentsIndex));
            proof {
                assert(actions@ =~= spec_start::<D, P>(download_picture, component_servers, patch_servers).1);
            }
            (Startup { stage: Stage::CheckingComponents, ..s }, actions)
        }
    }

    /// Pushes the actions of `try_component_server(self, i)` and returns its state.
    fn try_component_server<D, P>(&self, i: usize, actions: &mut Vec<StartupAction<D, P>>) -> (next: Startup)
        ensures
            next == try_component_server::<D, P>(*self, i as int).0,
            final(actions)@ == old(actions)@ + try_component_server::<D, P>(*self, i as int).1,
    {
        if i < self.component_servers {
            actions.push(StartupAction::Run(Task::SyncComponentsIndex(i)));
            proof {
                assert(actions@ =~= old(actions)@ + try_component_server::<D, P>(*self, i as int).1);
            }
            Startup { stage: Stage::SyncingComponents(i), ..*self }
        } else {
            actions.push(StartupAction::Loading(LoadingStep::PatchStatus));
            actions.push(StartupAction::Run(Task::CheckPatchFolder));
            proof {
                assert(actions@ =~= old(actions)@ + try_component_server::<D, P>(*self, i as int).1);
            }
            Startup { stage: Stage::CheckingPatch, ..*self }
        }
    }

    /// Pushes the actions of `try_patch_server(self, i)` and returns its state.
    fn try_patch_server<D, P>(&self, i: usize, actions: &mut Vec<StartupAction<D, P>>) -> (next: Startup)
        ensures
            next == try_patch_server::<D, P>(*self, i as int).0,
            final(actions)@ == old(actions)@ + try_patch_server::<D, P>(*self, i as int).1,
    {
        if i < self.patch_servers {
            actions.push(StartupAction::Run(Task::SyncPatchFolder(i)));
            proof {
                assert(actions@ =~= old(actions)@ + try_patch_server::<D, P>(*self, i as int).1);
            }
            Startup { stage: Stage::SyncingPatch(i), ..*self }
        } else {
            actions.push(StartupAction::Run(Task::FetchMainPatch));
            proof {
                assert(actions@ =~= old(actions)@ + try_patch_server::<D, P>(*self, i as int).1);
            }
            Startup { stage: Stage::FetchingMainPatch, ..*self }
        }
    }

    /// Takes the outcome of the task asked for last.
    pub fn step<D, P>(&self, event: StartupEvent<D, P>) -> (res: (Startup, Vec<StartupAction<D, P>>))
        ensures
            (res.0, res.1@) == spec_step(*self, event),
    {
        let ghost ev = event;
        let mut actions: Vec<StartupAction<D, P>> = Vec::new();
        let next = match (self.stage, event) {
            (Stage::DownloadingBackground, StartupEvent::BackgroundDownloaded(r)) => {
                if let Err(e) = r {
                    actions.push(StartupAction::Failed(Failure::BackgroundDownload, e));
                }
                actions.push(StartupAction::Loading(LoadingStep::ComponentsIndex));
                actions.push(StartupAction::Run(Task::CheckComponentsIndex));
                Startup { stage: Stage::CheckingComponents, ..*self }
            },
            (Stage::CheckingComponents, StartupEvent::ComponentsIndexChecked(r)) => match r {
                Ok(true) => {
                    actions.push(StartupAction::Loading(LoadingStep::PatchStatus));
                    actions.push(StartupAction::Run(Task::CheckPatchFolder));
                    Startup { stage: Stage::CheckingPatch, ..*self }
                },
                Ok(false) => self.try_component_server(0, &mut actions),
                Err(e) => {
                    actions.push(StartupAction::Failed(Failure::ComponentsIndexVerify, e));
                    actions.push(StartupAction::Loading(LoadingStep::PatchStatus));
                    actions.push(StartupAction::Run(Task::CheckPatchFolder));
                    Startup { stage: Stage::CheckingPatch, ..*self }
                },
            },
            (Stage::SyncingComponents(i), StartupEvent::ComponentsIndexSynced(r)) => match r {
                Ok(changes) => {
                    actions.push(StartupAction::ComponentsUpdated(changes));
                    actions.push(StartupAction::Loading(LoadingStep::PatchStatus));
                    actions.push(StartupAction::Run(Task::CheckPatchFolder));
                    Startup { stage: Stage::CheckingPatch, ..*self }
                },
                Err(e) => {
                    actions.push(StartupAction::Failed(Failure::ComponentsIndexSync, e));
                    if i < self.component_servers {
                        self.try_component_server(i + 1, &mut actions)
                    } else {
                        actions.push(StartupAction::Loading(LoadingStep::PatchStatus));
                        actions.push(StartupAction::Run(Task::CheckPatchFolder));
                        Startup { stage: Stage::CheckingPatch, ..*self }
                    }
                },
            },
            (Stage::CheckingPatch, StartupEvent::PatchFolderChecked(r)) => match r {
                Ok(true) => {
                    actions.push(StartupAction::Run(Task::FetchMainPatch));
                    Startup { stage: Stage::FetchingMainPatch, ..*self }
                },
                Ok(false) => self.try_patch_server(0, &mut actions),
                Err(e) => {
                    actions.push(StartupAction::Failed(Failure::PatchStateCheck, e));
                    actions.push(StartupAction::Run(Task::FetchMainPatch));
                    Startup { stage: Stage::FetchingMainPatch, ..*self }
                },
            },
            (Stage::SyncingPatch(i), StartupEvent::PatchFolderSynced(r)) => match r {
                Ok(()) => {
                    actions.push(StartupAction::Run(Task::FetchMainPatch));
                    Startup { stage: Stage::FetchingMainPatch, ..*self }
                },
                Err(e) => {
                    actions.push(StartupAction::Failed(Failure::PatchSync, e));
                    if i < self.patch_servers {
                        self.try_patch_server(i + 1, &mut actions)
                    } else {
                        actions.push(StartupAction::Run(Task::FetchMainPatch));
                        Startup { stage: Stage::FetchingMainPatch, ..*self }
                    }
                },
            },
            (Stage::FetchingMainPatch, StartupEvent::MainPatchFetched(r)) => {
                match r {
                    Ok(patch) => actions.push(StartupAction::SetMainPatch(Some(patch))),
                    Err(e) => {
                        actions.push(StartupAction::Failed(Failure::PatchInfoFetch, e));
                        actions.push(StartupAction::SetMainPatch(None));
                    },
                }
                actions.push(StartupAction::Loading(LoadingStep::GameVersion));
                actions.push(StartupAction::Run(Task::FetchGameDiff));
                Startup { stage: Stage::FetchingGameDiff, ..*self }
            },
            (Stage::FetchingGameDiff, StartupEvent::GameDiffFetched(r)) => {
                match r {
                    Ok(diff) => actions.push(StartupAction::SetGameDiff(Some(diff))),
                    Err(e) => {
                        actions.push(StartupAction::Failed(Failure::GameDiffFind, e));
                        actions.push(StartupAction::SetGameDiff(None));
                    },
                }
                actions.push(StartupAction::UpdateLauncherState);
                actions.push(StartupAction::Run(Task::MarkReady));
                Startup { stage: Stage::Done, ..*self }
            },
            _ => *self,
        };
        proof {
            assert(actions@ =~= spec_step(*self, ev).1);
        }
        (next, actions)
    }
}


/// The task whose outcome `stage` waits for (`MarkReady` once done).
pub open spec fn awaited_task(stage: Stage) -> Task {
    match stage {
        Stage::DownloadingBackground => Task::DownloadBackground,
        Stage::CheckingComponents => Task::CheckComponentsIndex,
        Stage::SyncingComponents(i) => Task::SyncComponentsIndex(i),
        Stage::CheckingPatch => Task::CheckPatchFolder,
        Stage::SyncingPatch(i) => Task::SyncPatchFolder(i),
        Stage::FetchingMainPatch => Task::FetchMainPatch,
        Stage::FetchingGameDiff => Task::FetchGameDiff,
        Stage::Done => Task::MarkReady,
    }
}

/// `event` is the outcome of the task that `stage` waits for.
pub open spec fn accepts<D, P>(stage: Stage, event: StartupEvent<D, P>) -> bool {
    match (stage, event) {
        (Stage::DownloadingBackground, StartupEvent::BackgroundDownloaded(_)) => true,
        (Stage::CheckingComponents, StartupEvent::ComponentsIndexChecked(_)) => true,
        (Stage::SyncingComponents(_), StartupEvent::ComponentsIndexSynced(_)) => true,
        (Stage::CheckingPatch, StartupEvent::PatchFolderChecked(_)) => true,
        (Stage::SyncingPatch(_), StartupEvent::PatchFolderSynced(_)) => true,
        (Stage::FetchingMainPatch, StartupEvent::MainPatchFetched(_)) => true,
        (Stage::FetchingGameDiff, StartupEvent::GameDiffFetched(_)) => true,
        _ => false,
    }
}

/// The error that `event` reports, if any.
pub open spec fn event_error<D, P>(event: StartupEvent<D, P>) -> Option<String> {
    match event {
        StartupEvent::BackgroundDownloaded(Err(e)) => Some(e),
        StartupEvent::ComponentsIndexChecked(Err(e)) => Some(e),
        StartupEvent::ComponentsIndexSynced(Err(e)) => Some(e),
        StartupEvent::PatchFolderChecked(Err(e)) => Some(e),
        StartupEvent::PatchFolderSynced(Err(e)) => Some(e),
        StartupEvent::MainPatchFetched(Err(e)) => Some(e),
        StartupEvent::GameDiffFetched(Err(e)) => Some(e),
        _ => None,
    }
}

/// An upper bound of the steps left before the sequence is done.
pub open spec fn steps_left(s: Startup) -> nat {
    let m = s.patch_servers as nat;
    let n = s.component_servers as nat;
    match s.stage {
        Stage::Done => 0,
        Stage::FetchingGameDiff => 1,
        Stage::FetchingMainPatch => 2,
        Stage::SyncingPatch(i) => 3 + (if i < m { (m - i) as nat } else { 0 }),
        Stage::CheckingPatch => m + 5,
        Stage::SyncingComponents(i) => m + 6 + (if i < n { (n - i) as nat } else { 0 }),
        Stage::CheckingComponents => m + n + 7,
        Stage::DownloadingBackground => m + n + 8,
    }
}

/// The sequence starts by running one task, the one its first stage waits for.
pub proof fn lemma_start_runs_awaited_task<D, P>(download_picture: bool, component_servers: usize, patch_servers: usize)
    ensures
        ({
            let (s, actions) = spec_start::<D, P>(download_picture, component_servers, patch_servers);
            &&& actions.len() > 0
            &&& actions.last() == StartupAction::<D, P>::Run(awaited_task(s.stage))
            &&& forall|k: int| 0 <= k < actions.len() - 1 ==> !(#[trigger] actions[k] is Run)
        }),
{
}

/// One task at a time: each accepted outcome leads to exactly one new task, the
/// last action, which is the task the new stage waits for; an outcome that is
/// not awaited changes nothing.
pub proof fn lemma_one_task_at_a_time<D, P>(s: Startup, event: StartupEvent<D, P>)
    ensures
        ({
            let (next, actions) = spec_step(s, event);
            if accepts(s.stage, event) {
                &&& actions.len() > 0
                &&& actions.last() == StartupAction::<D, P>::Run(awaited_task(next.stage))
                &&& forall|k: int| 0 <= k < actions.len() - 1 ==> !(#[trigger] actions[k] is Run)
            } else {
                next == s && actions.len() == 0
            }
        }),
{
}

/// The sequence always ends: each accepted outcome brings it closer to done,
/// however many servers fail.
pub proof fn lemma_startup_progress<D, P>(s: Startup, event: StartupEvent<D, P>)
    requires
        accepts(s.stage, event),
    ensures
        steps_left(spec_step(s, event).0) < steps_left(s),
{
}

/// Every failure is reported, with its error text, before anything else.
pub proof fn lemma_failures_reported_first<D, P>(s: Startup, event: StartupEvent<D, P>)
    requires
        accepts(s.stage, event),
        event_error(event) is Some,
    ensures
        ({
            let actions = spec_step(s, event).1;
            &&& actions.len() > 0
            &&& actions[0] matches StartupAction::Failed(_, e) && Some(e) == event_error(event)
        }),
{
}

/// The launcher state is requested once, by the step that ends the sequence,
/// right before the launcher is marked ready.
pub proof fn lemma_launcher_state_requested_at_end<D, P>(s: Startup, event: StartupEvent<D, P>)
    ensures
        ({
            let (next, actions) = spec_step(s, event);
            if accepts(s.stage, event) && next.stage is Done {
                &&& actions.len() >= 2
                &&& actions[actions.len() - 2] == StartupAction::<D, P>::UpdateLauncherState
                &&& forall|k: int| 0 <= k < actions.len() - 2 ==> !(#[trigger] actions[k] is UpdateLauncherState)
            } else {
                forall|k: int| 0 <= k < actions.len() ==> !(#[trigger] actions[k] is UpdateLauncherState)
            }
        }),
{
}

/// The order of the sequence. Whatever the background download gave, the
/// components index is checked next; an index in sync (or one that could not
/// be checked) leads to the patch folder, one out of sync to its first server;
/// a failed server leads to the next one, and after the last one, or after the
/// first success, to the patch folder. The patch folder goes the same way to
/// the main patch, the main patch to the game version, and the game version
/// ends the sequence.
pub proof fn lemma_stage_succession<D, P>(s: Startup, event: StartupEvent<D, P>)
    ensures
        ({
            let next = spec_step(s, event).0.stage;
            match (s.stage, event) {
                (Stage::DownloadingBackground, StartupEvent::BackgroundDownloaded(_)) => next is CheckingComponents,
                (Stage::CheckingComponents, StartupEvent::ComponentsIndexChecked(r)) => if r == Ok::<bool, String>(false)
                    && s.component_servers > 0 {
                    next == Stage::SyncingComponents(0)
                } else {
                    next is CheckingPatch
                },
                (Stage::SyncingComponents(i), StartupEvent::ComponentsIndexSynced(r)) => if r is Err && i + 1
                    < s.component_servers {
                    next == Stage::SyncingComponents((i + 1) as usize)
                } else {
                    next is CheckingPatch
                },
                (Stage::CheckingPatch, StartupEvent::PatchFolderChecked(r)) => if r == Ok::<bool, String>(false)
                    && s.patch_servers > 0 {
                    next == Stage::SyncingPatch(0)
                } else {
                    next is FetchingMainPatch
                },
                (Stage::SyncingPatch(i), StartupEvent::PatchFolderSynced(r)) => if r is Err && i + 1 < s.patch_servers {
                    next == Stage::SyncingPatch((i + 1) as usize)
                } else {
                    next is FetchingMainPatch
                },
                (Stage::FetchingMainPatch, StartupEvent::MainPatchFetched(_)) => next is FetchingGameDiff,
                (Stage::FetchingGameDiff, StartupEvent::GameDiffFetched(_)) => next is Done,
                _ => next == s.stage,
            }
        }),
        spec_step(s, event).0.component_servers == s.component_servers,
        spec_step(s, event).0.patch_servers == s.patch_servers,
{
}

/// Each part of the sequence starts by showing its description on the loading
/// page: entering the components index, the patch folder or the game version
/// shows the matching text right before the task runs.
pub proof fn lemma_parts_show_loading_text<D, P>(s: Startup, event: StartupEvent<D, P>)
    requires
        accepts(s.stage, event),
    ensures
        ({
            let (next, actions) = spec_step(s, event);
            &&& next.stage is CheckingComponents ==> actions.len() >= 2
                && actions[actions.len() - 2] == StartupAction::<D, P>::Loading(LoadingStep::ComponentsIndex)
            &&& (next.stage is CheckingPatch && !(s.stage is CheckingPatch)) ==> actions.len() >= 2
                && actions[actions.len() - 2] == StartupAction::<D, P>::Loading(LoadingStep::PatchStatus)
            &&& next.stage is FetchingGameDiff ==> actions.len() >= 2
                && actions[actions.len() - 2] == StartupAction::<D, P>::Loading(LoadingStep::GameVersion)
        }),
{
}

/// What the tasks bring is handed on: the changes of a successful index sync
/// are reported; the main patch and the game version go to the window, as
/// nothing when they could not be fetched.
pub proof fn lemma_results_handed_on<D, P>(s: Startup, event: StartupEvent<D, P>)
    requires
        accepts(s.stage, event),
    ensures
        ({
            let actions = spec_step(s, event).1;
            &&& event matches StartupEvent::ComponentsIndexSynced(Ok(changes))
                ==> actions[0] == StartupAction::<D, P>::ComponentsUpdated(changes)
            &&& event matches StartupEvent::MainPatchFetched(Ok(p))
                ==> actions[0] == StartupAction::<D, P>::SetMainPatch(Some(p))
            &&& event matches StartupEvent::MainPatchFetched(Err(_))
                ==> actions[1] == StartupAction::<D, P>::SetMainPatch(None)
            &&& event matches StartupEvent::GameDiffFetched(Ok(d))
                ==> actions[0] == StartupAction::<D, P>::SetGameDiff(Some(d))
            &&& event matches StartupEvent::GameDiffFetched(Err(_))
                ==> actions[1] == StartupAction::<D, P>::SetGameDiff(None)
        }),
{
}

/// The sequence begins with the background picture exactly when it is needed,
/// and with the components index otherwise.
pub proof fn lemma_start_order<D, P>(download_picture: bool, component_servers: usize, patch_servers: usize)
    ensures
        ({
            let (s, actions) = spec_start::<D, P>(download_picture, component_servers, patch_servers);
            &&& s.component_servers == component_servers
            &&& s.patch_servers == patch_servers
            &&& download_picture ==> s.stage is DownloadingBackground
                && actions == seq![StartupAction::<D, P>::Loading(LoadingStep::BackgroundPicture), StartupAction::Run(Task::DownloadBackground)]
            &&& !download_picture ==> s.stage is CheckingComponents
                && actions == seq![StartupAction::<D, P>::Loading(LoadingStep::ComponentsIndex), StartupAction::Run(Task::CheckComponentsIndex)]
        }),
{
}

/// A failure is reported as the failure of the task that failed.
pub proof fn lemma_failure_kind<D, P>(s: Startup, event: StartupEvent<D, P>)
    requires
        accepts(s.stage, event),
        event_error(event) is Some,
    ensures
        ({
            let a = spec_step(s, event).1[0];
            match event {
                StartupEvent::BackgroundDownloaded(_) => a matches StartupAction::Failed(Failure::BackgroundDownload, _),
                StartupEvent::ComponentsIndexChecked(_) => a matches StartupAction::Failed(Failure::ComponentsIndexVerify, _),
                StartupEvent::ComponentsIndexSynced(_) => a matches StartupAction::Failed(Failure::ComponentsIndexSync, _),
                StartupEvent::PatchFolderChecked(_) => a matches StartupAction::Failed(Failure::PatchStateCheck, _),
                StartupEvent::PatchFolderSynced(_) => a matches StartupAction::Failed(Failure::PatchSync, _),
                StartupEvent::MainPatchFetched(_) => a matches StartupAction::Failed(Failure::PatchInfoFetch, _),
                StartupEvent::GameDiffFetched(_) => a matches StartupAction::Failed(Failure::GameDiffFind, _),
            }
        }),
{
}

/// The keys of the loading texts and of the reports.
pub proof fn lemma_startup_keys()
    ensures
        LoadingStep::BackgroundPicture.spec_key() == "downloading-background-picture"@,
        LoadingStep::ComponentsIndex.spec_key() == "updating-components-index"@,
        LoadingStep::PatchStatus.spec_key() == "loading-patch-status"@,
        LoadingStep::GameVersion.spec_key() == "loading-game-version"@,
        Failure::BackgroundDownload.spec_key() == "background-downloading-failed"@,
        Failure::ComponentsIndexVerify.spec_key() == "components-index-verify-failed"@,
        Failure::ComponentsIndexSync.spec_key() == "components-index-sync-failed"@,
        Failure::PatchStateCheck.spec_key() == "patch-state-check-failed"@,
        Failure::PatchSync.spec_key() == "patch-sync-failed"@,
        Failure::PatchInfoFetch.spec_key() == "patch-info-fetching-error"@,
        Failure::GameDiffFind.spec_key() == "game-diff-finding-error"@,
        components_updated_key() == "components-index-updated"@,
{
}

/// Each stage waits for its own task: the background download, the index
/// check, the sync from the server it names, the patch folder check, the patch
/// sync from the server it names, the main patch, the game version; a finished
/// sequence marks the launcher ready.
pub proof fn lemma_awaited_tasks(i: usize)
    ensures
        awaited_task(Stage::DownloadingBackground) == Task::DownloadBackground,
        awaited_task(Stage::CheckingComponents) == Task::CheckComponentsIndex,
        awaited_task(Stage::SyncingComponents(i)) == Task::SyncComponentsIndex(i),
        awaited_task(Stage::CheckingPatch) == Task::CheckPatchFolder,
        awaited_task(Stage::SyncingPatch(i)) == Task::SyncPatchFolder(i),
        awaited_task(Stage::FetchingMainPatch) == Task::FetchMainPatch,
        awaited_task(Stage::FetchingGameDiff) == Task::FetchGameDiff,
        awaited_task(Stage::Done) == Task::MarkReady,
{
}

} // verus!
