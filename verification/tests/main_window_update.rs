use the_honkers_railway_launcher::launcher::{Action, LauncherState, LauncherStyle, PatchStatus, StateUpdating};
use the_honkers_railway_launcher::main_window::{App, AppMsg, Effect, LauncherStateQuery, UserRequest};

type Model = App<u32, u8>;
type Msg = AppMsg<u32, u8>;
type State = LauncherState<u32, u8>;

fn loaded(state: Option<State>) -> Model {
    let mut app = Model::init(LauncherStyle::Modern);
    app.loading = None;
    app.state = state;
    app
}

fn is_loading_text(e: &Effect<u32, u8>, text: &str) -> bool {
    matches!(e, Effect::Send(AppMsg::SetLoadingStatus(Some(Some(s)))) if s == text)
}

fn query(show_status_page: bool) -> LauncherStateQuery {
    LauncherStateQuery { perform_on_download_needed: true, apply_patch_if_needed: false, show_status_page }
}

fn predownload() -> State {
    LauncherState::PredownloadAvailable { version: String::from("2.1.0"), size: Some((1000, 3000)), diff: 5 }
}

#[test]
fn init_shows_loading_page() {
    let app = Model::init(LauncherStyle::Classic);
    assert!(matches!(app.loading, Some(None)));
    assert!(matches!(app.style, LauncherStyle::Classic));
    assert!(app.state.is_none());
    assert!(!app.downloading);
    assert!(!app.disabled_buttons);
}

#[test]
fn background_picture_only_for_classic_style() {
    assert!(Model::init(LauncherStyle::Classic).needs_background_picture(false));
    assert!(!Model::init(LauncherStyle::Classic).needs_background_picture(true));
    assert!(!Model::init(LauncherStyle::Modern).needs_background_picture(false));
}

#[test]
fn update_launcher_state_with_status_page() {
    let mut app = loaded(None);
    let effects = app.update(Msg::UpdateLauncherState {
        perform_on_download_needed: false,
        apply_patch_if_needed: true,
        show_status_page: true,
    });
    assert_eq!(effects.len(), 2);
    assert!(is_loading_text(&effects[0], "loading-launcher-state"));
    assert!(matches!(
        effects[1],
        Effect::LoadLauncherState(LauncherStateQuery {
            perform_on_download_needed: false,
            apply_patch_if_needed: true,
            show_status_page: true
        })
    ));
    assert!(!app.disabled_buttons);
}

#[test]
fn round_trip_without_status_page_restores_buttons() {
    let mut app = loaded(None);
    let q = query(false);
    let effects = app.update(Msg::UpdateLauncherState {
        perform_on_download_needed: q.perform_on_download_needed,
        apply_patch_if_needed: q.apply_patch_if_needed,
        show_status_page: false,
    });
    assert_eq!(effects.len(), 1);
    assert!(app.disabled_buttons);
    let effects = app.launcher_state_loaded(q, Ok(LauncherState::Launch));
    assert!(!app.disabled_buttons);
    assert_eq!(effects.len(), 1);
    assert!(matches!(effects[0], Effect::Send(AppMsg::SetLauncherState(Some(LauncherState::Launch)))));
}

#[test]
fn loaded_download_state_presses_the_button() {
    let mut app = loaded(None);
    let effects = app.launcher_state_loaded(query(true), Ok(LauncherState::GameNotInstalled(9)));
    assert_eq!(effects.len(), 3);
    assert!(matches!(effects[0], Effect::Send(AppMsg::SetLauncherState(Some(LauncherState::GameNotInstalled(9))))));
    assert!(matches!(effects[1], Effect::Send(AppMsg::SetLoadingStatus(None))));
    assert!(matches!(effects[2], Effect::Send(AppMsg::PerformAction)));
}

#[test]
fn loaded_patch_state_waits_unless_asked() {
    let mut app = loaded(None);
    let state = LauncherState::MainPatchAvailable { status: PatchStatus::Available, patch: 1 };
    let effects = app.launcher_state_loaded(query(true), Ok(state));
    assert_eq!(effects.len(), 2);
    let q = LauncherStateQuery { perform_on_download_needed: false, apply_patch_if_needed: true, show_status_page: true };
    let state = LauncherState::MainPatchAvailable { status: PatchStatus::Testing, patch: 1 };
    let effects = app.launcher_state_loaded(q, Ok(state));
    assert_eq!(effects.len(), 3);
    assert!(matches!(effects[2], Effect::Send(AppMsg::PerformAction)));
}

#[test]
fn failed_state_load_is_reported() {
    let mut app = loaded(None);
    let effects = app.launcher_state_loaded(query(true), Err(String::from("no config")));
    assert_eq!(effects.len(), 3);
    match &effects[0] {
        Effect::ReportError { title, error } => {
            assert_eq!(title, "launcher-state-updating-error");
            assert_eq!(error, "no config");
        },
        _ => panic!("expected an error report"),
    }
    assert!(matches!(effects[1], Effect::Send(AppMsg::SetLauncherState(None))));
    assert!(matches!(effects[2], Effect::Send(AppMsg::SetLoadingStatus(None))));
}

#[test]
fn state_updating_messages() {
    let shown = query(true);
    match Model::state_updating_message(shown, StateUpdating::Game) {
        Some(AppMsg::SetLoadingStatus(Some(Some(s)))) => assert_eq!(s, "loading-launcher-state--game"),
        _ => panic!("expected a loading text"),
    }
    match Model::state_updating_message(shown, StateUpdating::Patch) {
        Some(AppMsg::SetLoadingStatus(Some(Some(s)))) => assert_eq!(s, "loading-launcher-state--patch"),
        _ => panic!("expected a loading text"),
    }
    assert!(Model::state_updating_message(query(false), StateUpdating::Game).is_none());
}

#[test]
fn setters_change_one_field() {
    let mut app = loaded(None);
    assert!(app.update(Msg::SetLauncherState(Some(LauncherState::WineNotInstalled))).is_empty());
    assert!(matches!(app.state, Some(LauncherState::WineNotInstalled)));
    assert!(app.update(Msg::SetLoadingStatus(Some(Some(String::from("x"))))).is_empty());
    assert!(matches!(&app.loading, Some(Some(s)) if s == "x"));
    assert!(app.update(Msg::SetLauncherStyle(LauncherStyle::Classic)).is_empty());
    assert!(matches!(app.style, LauncherStyle::Classic));
    assert!(app.update(Msg::SetDownloading(true)).is_empty());
    assert!(app.downloading);
    assert!(app.update(Msg::DisableButtons(true)).is_empty());
    assert!(app.disabled_buttons);
}

#[test]
fn forwarded_and_window_effects() {
    let mut app = loaded(None);
    assert!(matches!(app.update(Msg::SetGameDiff(Some(4)))[0], Effect::ForwardGameDiff(Some(4))));
    assert!(matches!(app.update(Msg::SetMainPatch(None))[0], Effect::ForwardMainPatch(None)));
    assert!(matches!(app.update(Msg::OpenPreferences)[0], Effect::PresentPreferences));
    assert!(matches!(app.update(Msg::RepairGame)[0], Effect::RepairGame));
    assert!(matches!(app.update(Msg::HideWindow)[0], Effect::HideWindow));
    assert!(matches!(app.update(Msg::ShowWindow)[0], Effect::PresentWindow));
}

fn action_of(state: State) -> Option<Action> {
    let mut app = loaded(Some(state));
    let effects = app.update(Msg::PerformAction);
    match effects.as_slice() {
        [] => None,
        [Effect::Perform(a)] => Some(*a),
        _ => panic!("unexpected effects"),
    }
}

#[test]
fn perform_action_dispatch() {
    assert!(matches!(action_of(LauncherState::Launch), Some(Action::Launch)));
    assert!(matches!(action_of(predownload()), Some(Action::Launch)));
    assert!(matches!(
        action_of(LauncherState::MainPatchAvailable { status: PatchStatus::NotAvailable, patch: 0 }),
        Some(Action::Launch)
    ));
    assert!(matches!(
        action_of(LauncherState::MainPatchAvailable { status: PatchStatus::Outdated, patch: 0 }),
        Some(Action::ApplyPatch)
    ));
    assert!(matches!(action_of(LauncherState::WineNotInstalled), Some(Action::DownloadWine)));
    assert!(matches!(action_of(LauncherState::PrefixNotExists), Some(Action::CreatePrefix)));
    assert!(matches!(action_of(LauncherState::GameUpdateAvailable(1)), Some(Action::DownloadDiff)));
    assert!(matches!(action_of(LauncherState::GameNotInstalled(1)), Some(Action::DownloadDiff)));
    assert!(action_of(LauncherState::GameOutdated(1)).is_none());
}

#[test]
fn predownload_starts_only_when_available() {
    let mut app = loaded(Some(predownload()));
    let effects = app.update(Msg::PredownloadUpdate);
    assert!(app.downloading);
    assert_eq!(effects.len(), 2);
    assert!(matches!(&effects[0], Effect::SetProgressCaption(Some(c)) if c == "downloading"));
    assert!(matches!(effects[1], Effect::StartPredownload));

    let mut app = loaded(Some(LauncherState::Launch));
    assert!(app.update(Msg::PredownloadUpdate).is_empty());
    assert!(!app.downloading);
}

#[test]
fn predownload_finished_reloads_state() {
    let effects = Model::predownload_finished(Err(String::from("disk full")));
    assert_eq!(effects.len(), 3);
    assert!(matches!(&effects[0], Effect::Send(AppMsg::Toast { title, description: Some(d) })
        if title == "downloading-failed" && d == "disk full"));
    assert!(matches!(effects[1], Effect::Send(AppMsg::SetDownloading(false))));
    assert!(matches!(effects[2], Effect::Send(AppMsg::UpdateLauncherState {
        perform_on_download_needed: false,
        apply_patch_if_needed: false,
        show_status_page: true
    })));
    assert_eq!(Model::predownload_finished(Ok(())).len(), 2);
}

#[test]
fn toasts_with_and_without_details() {
    let app = loaded(None);
    let t = app.toast(String::from("Saved"), None);
    assert_eq!(t.title, "Saved");
    assert_eq!(t.timeout, 4);
    assert!(t.details.is_none());

    let mut app = loaded(None);
    let effects = app.update(Msg::Toast { title: String::from("Oops"), description: Some(String::from("trace")) });
    match &effects[0] {
        Effect::ShowToast(t) => {
            let d = t.details.as_ref().unwrap();
            assert_eq!(d.button_label, "details");
            assert_eq!(d.heading, "Oops");
            assert_eq!(d.body, "trace");
            assert_eq!(d.close_label, "close");
            assert_eq!(d.save_label, "save");
        },
        _ => panic!("expected a toast"),
    }
}

#[test]
fn user_request_failures() {
    let cases = [
        (UserRequest::LauncherFolder, "launcher-folder-opening-error"),
        (UserRequest::GameFolder, "game-folder-opening-error"),
        (UserRequest::ConfigFile, "config-file-opening-error"),
        (UserRequest::DebugFile, "debug-file-opening-error"),
        (UserRequest::ConfigUpdate, "config-update-error"),
    ];
    for (request, key) in cases {
        match request.failure_message::<u32, u8>(String::from("denied")) {
            AppMsg::Toast { title, description } => {
                assert_eq!(title, key);
                assert_eq!(description.as_deref(), Some("denied"));
            },
            _ => panic!("expected a toast"),
        }
    }
}

#[test]
fn unavailable_patch_is_not_applied_by_itself() {
    let q = LauncherStateQuery { perform_on_download_needed: true, apply_patch_if_needed: true, show_status_page: false };
    for status in [PatchStatus::NotAvailable, PatchStatus::Outdated] {
        let mut app = loaded(None);
        let effects = app.launcher_state_loaded(q, Ok(LauncherState::MainPatchAvailable { status, patch: 2 }));
        assert_eq!(effects.len(), 1);
        assert!(matches!(effects[0], Effect::Send(AppMsg::SetLauncherState(Some(_)))));
    }
    let mut app = loaded(None);
    let effects = app.launcher_state_loaded(q, Ok(LauncherState::GameUpdateAvailable(3)));
    assert_eq!(effects.len(), 2);
    assert!(matches!(effects[1], Effect::Send(AppMsg::PerformAction)));
    let effects = app.launcher_state_loaded(q, Ok(LauncherState::PrefixNotExists));
    assert_eq!(effects.len(), 1);
}

#[test]
fn reload_message_shows_loading_page() {
    assert!(matches!(Model::reload_launcher_state_msg(), AppMsg::UpdateLauncherState {
        perform_on_download_needed: false,
        apply_patch_if_needed: false,
        show_status_page: true
    }));
}
