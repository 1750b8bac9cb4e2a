use the_honkers_railway_launcher::startup::{
    Failure, LoadingStep, Stage, Startup, StartupAction, StartupEvent, Task,
};

type Action = StartupAction<u32, u8>;
type Event = StartupEvent<u32, u8>;

fn is_loading(a: &Action, step: LoadingStep) -> bool {
    matches!(a, StartupAction::Loading(s) if s.key() == step.key())
}

fn is_run(a: &Action, task: Task) -> bool {
    match (a, task) {
        (StartupAction::Run(Task::DownloadBackground), Task::DownloadBackground) => true,
        (StartupAction::Run(Task::CheckComponentsIndex), Task::CheckComponentsIndex) => true,
        (StartupAction::Run(Task::SyncComponentsIndex(i)), Task::SyncComponentsIndex(j)) => *i == j,
        (StartupAction::Run(Task::CheckPatchFolder), Task::CheckPatchFolder) => true,
        (StartupAction::Run(Task::SyncPatchFolder(i)), Task::SyncPatchFolder(j)) => *i == j,
        (StartupAction::Run(Task::FetchMainPatch), Task::FetchMainPatch) => true,
        (StartupAction::Run(Task::FetchGameDiff), Task::FetchGameDiff) => true,
        (StartupAction::Run(Task::MarkReady), Task::MarkReady) => true,
        _ => false,
    }
}

fn is_failed(a: &Action, failure: Failure, text: &str) -> bool {
    matches!(a, StartupAction::Failed(f, e) if f.key() == failure.key() && e == text)
}

#[test]
fn start_with_background_picture() {
    let (s, actions) = Startup::start::<u32, u8>(true, 2, 1);
    assert!(matches!(s.stage, Stage::DownloadingBackground));
    assert_eq!(actions.len(), 2);
    assert!(is_loading(&actions[0], LoadingStep::BackgroundPicture));
    assert!(is_run(&actions[1], Task::DownloadBackground));
}

#[test]
fn start_without_background_picture() {
    let (s, actions) = Startup::start::<u32, u8>(false, 2, 1);
    assert!(matches!(s.stage, Stage::CheckingComponents));
    assert_eq!(actions.len(), 2);
    assert!(is_loading(&actions[0], LoadingStep::ComponentsIndex));
    assert!(is_run(&actions[1], Task::CheckComponentsIndex));
}

#[test]
fn failed_background_is_reported_then_components_checked() {
    let (s, _) = Startup::start::<u32, u8>(true, 2, 1);
    let (s, actions) = s.step::<u32, u8>(Event::BackgroundDownloaded(Err(String::from("timeout"))));
    assert!(matches!(s.stage, Stage::CheckingComponents));
    assert_eq!(actions.len(), 3);
    assert!(is_failed(&actions[0], Failure::BackgroundDownload, "timeout"));
    assert!(is_loading(&actions[1], LoadingStep::ComponentsIndex));
    assert!(is_run(&actions[2], Task::CheckComponentsIndex));
}

#[test]
fn components_sync_tries_servers_until_one_answers() {
    let (s, _) = Startup::start::<u32, u8>(false, 3, 1);
    let (s, actions) = s.step(Event::ComponentsIndexChecked(Ok(false)));
    assert!(matches!(s.stage, Stage::SyncingComponents(0)));
    assert_eq!(actions.len(), 1);
    assert!(is_run(&actions[0], Task::SyncComponentsIndex(0)));

    let (s, actions) = s.step(Event::ComponentsIndexSynced(Err(String::from("404"))));
    assert!(matches!(s.stage, Stage::SyncingComponents(1)));
    assert_eq!(actions.len(), 2);
    assert!(is_failed(&actions[0], Failure::ComponentsIndexSync, "404"));
    assert!(is_run(&actions[1], Task::SyncComponentsIndex(1)));

    let (s, actions) = s.step(Event::ComponentsIndexSynced(Ok(vec![String::from("wine: 8-26")])));
    assert!(matches!(s.stage, Stage::CheckingPatch));
    assert_eq!(actions.len(), 3);
    match &actions[0] {
        StartupAction::ComponentsUpdated(changes) => assert_eq!(changes, &vec![String::from("wine: 8-26")]),
        _ => panic!("expected the update report"),
    }
    assert!(is_loading(&actions[1], LoadingStep::PatchStatus));
    assert!(is_run(&actions[2], Task::CheckPatchFolder));
}

#[test]
fn components_sync_gives_up_after_the_last_server() {
    let (s, _) = Startup::start::<u32, u8>(false, 1, 0);
    let (s, _) = s.step(Event::ComponentsIndexChecked(Ok(false)));
    let (s, actions) = s.step(Event::ComponentsIndexSynced(Err(String::from("down"))));
    assert!(matches!(s.stage, Stage::CheckingPatch));
    assert_eq!(actions.len(), 3);
    assert!(is_failed(&actions[0], Failure::ComponentsIndexSync, "down"));
    assert!(is_run(&actions[2], Task::CheckPatchFolder));
}

#[test]
fn components_without_servers_go_to_patch() {
    let (s, _) = Startup::start::<u32, u8>(false, 0, 0);
    let (s, actions) = s.step(Event::ComponentsIndexChecked(Ok(false)));
    assert!(matches!(s.stage, Stage::CheckingPatch));
    assert!(is_run(&actions[1], Task::CheckPatchFolder));
}

#[test]
fn components_check_failure_is_reported() {
    let (s, _) = Startup::start::<u32, u8>(false, 2, 2);
    let (s, actions) = s.step(Event::ComponentsIndexChecked(Err(String::from("git"))));
    assert!(matches!(s.stage, Stage::CheckingPatch));
    assert_eq!(actions.len(), 3);
    assert!(is_failed(&actions[0], Failure::ComponentsIndexVerify, "git"));
}

#[test]
fn whole_sequence_with_patch_sync_and_failures() {
    let (s, _) = Startup::start::<u32, u8>(false, 1, 2);
    let (s, _) = s.step(Event::ComponentsIndexChecked(Ok(true)));
    assert!(matches!(s.stage, Stage::CheckingPatch));
    let (s, actions) = s.step(Event::PatchFolderChecked(Ok(false)));
    assert!(is_run(&actions[0], Task::SyncPatchFolder(0)));
    let (s, actions) = s.step(Event::PatchFolderSynced(Err(String::from("a"))));
    assert!(is_failed(&actions[0], Failure::PatchSync, "a"));
    assert!(is_run(&actions[1], Task::SyncPatchFolder(1)));
    let (s, actions) = s.step(Event::PatchFolderSynced(Ok(())));
    assert_eq!(actions.len(), 1);
    assert!(is_run(&actions[0], Task::FetchMainPatch));
    let (s, actions) = s.step(Event::MainPatchFetched(Err(String::from("no patch"))));
    assert!(matches!(s.stage, Stage::FetchingGameDiff));
    assert_eq!(actions.len(), 4);
    assert!(is_failed(&actions[0], Failure::PatchInfoFetch, "no patch"));
    assert!(matches!(actions[1], StartupAction::SetMainPatch(None)));
    assert!(is_loading(&actions[2], LoadingStep::GameVersion));
    assert!(is_run(&actions[3], Task::FetchGameDiff));
    let (s, actions) = s.step(Event::GameDiffFetched(Ok(7)));
    assert!(matches!(s.stage, Stage::Done));
    assert_eq!(actions.len(), 3);
    assert!(matches!(actions[0], StartupAction::SetGameDiff(Some(7))));
    assert!(matches!(actions[1], StartupAction::UpdateLauncherState));
    assert!(is_run(&actions[2], Task::MarkReady));
}

#[test]
fn patch_fetched_and_game_diff_failed() {
    let s = Startup { stage: Stage::FetchingMainPatch, component_servers: 1, patch_servers: 1 };
    let (s, actions) = s.step::<u32, u8>(Event::MainPatchFetched(Ok(3)));
    assert_eq!(actions.len(), 3);
    assert!(matches!(actions[0], StartupAction::SetMainPatch(Some(3))));
    let (s, actions) = s.step::<u32, u8>(Event::GameDiffFetched(Err(String::from("api"))));
    assert!(matches!(s.stage, Stage::Done));
    assert_eq!(actions.len(), 4);
    assert!(is_failed(&actions[0], Failure::GameDiffFind, "api"));
    assert!(matches!(actions[1], StartupAction::SetGameDiff(None)));
    assert!(matches!(actions[2], StartupAction::UpdateLauncherState));
    assert!(is_run(&actions[3], Task::MarkReady));
}

#[test]
fn patch_check_failure_goes_on_to_fetch() {
    let s = Startup { stage: Stage::CheckingPatch, component_servers: 0, patch_servers: 0 };
    let (s, actions) = s.step::<u32, u8>(Event::PatchFolderChecked(Err(String::from("x"))));
    assert!(matches!(s.stage, Stage::FetchingMainPatch));
    assert_eq!(actions.len(), 2);
    assert!(is_failed(&actions[0], Failure::PatchStateCheck, "x"));
    assert!(is_run(&actions[1], Task::FetchMainPatch));
}

#[test]
fn unexpected_outcome_changes_nothing() {
    let s = Startup { stage: Stage::CheckingPatch, component_servers: 1, patch_servers: 1 };
    let (t, actions) = s.step::<u32, u8>(Event::GameDiffFetched(Ok(1)));
    assert!(matches!(t.stage, Stage::CheckingPatch));
    assert!(actions.is_empty());
    let done = Startup { stage: Stage::Done, component_servers: 1, patch_servers: 1 };
    let (t, actions) = done.step::<u32, u8>(Event::BackgroundDownloaded(Ok(())));
    assert!(matches!(t.stage, Stage::Done));
    assert!(actions.is_empty());
}

#[test]
fn keys_of_steps_and_failures() {
    assert_eq!(LoadingStep::BackgroundPicture.key(), "downloading-background-picture");
    assert_eq!(LoadingStep::ComponentsIndex.key(), "updating-components-index");
    assert_eq!(LoadingStep::PatchStatus.key(), "loading-patch-status");
    assert_eq!(LoadingStep::GameVersion.key(), "loading-game-version");
    assert_eq!(Failure::BackgroundDownload.key(), "background-downloading-failed");
    assert_eq!(Failure::ComponentsIndexVerify.key(), "components-index-verify-failed");
    assert_eq!(Failure::ComponentsIndexSync.key(), "components-index-sync-failed");
    assert_eq!(Failure::PatchStateCheck.key(), "patch-state-check-failed");
    assert_eq!(Failure::PatchSync.key(), "patch-sync-failed");
    assert_eq!(Failure::PatchInfoFetch.key(), "patch-info-fetching-error");
    assert_eq!(Failure::GameDiffFind.key(), "game-diff-finding-error");
}

#[test]
fn components_updated_title_key() {
    assert_eq!(the_honkers_railway_launcher::startup::components_updated_key_text(), "components-index-updated");
}
