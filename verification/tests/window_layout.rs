use the_honkers_railway_launcher::launcher::{LauncherState, LauncherStyle, PatchStatus};
use the_honkers_railway_launcher::layout::{Align, Caption};
use the_honkers_railway_launcher::main_window::App;

type Model = App<u32, u8>;
type State = LauncherState<u32, u8>;

fn model(style: LauncherStyle, state: Option<State>) -> Model {
    let mut app = Model::init(style);
    app.loading = None;
    app.state = state;
    app
}

fn key(c: Caption) -> Option<&'static str> {
    match c {
        Caption::Key(k) => Some(k),
        Caption::Literal(_) => None,
    }
}

#[test]
fn sizes_follow_the_style() {
    let modern = model(LauncherStyle::Modern, None);
    let classic = model(LauncherStyle::Classic, None);
    assert_eq!(modern.default_size(), (900, 600));
    assert_eq!(classic.default_size(), (1094, 624));
    assert_eq!(modern.controls_width_request(), -1);
    assert_eq!(classic.controls_width_request(), 800);
    assert_eq!(modern.buttons_margin_bottom(), 48);
    assert_eq!(classic.buttons_margin_bottom(), 0);
    assert_eq!(modern.small_button_size(), -1);
    assert_eq!(classic.small_button_size(), 40);
    assert!(matches!(modern.controls_align(), Align::Center));
    assert!(matches!(classic.controls_align(), Align::End));
    assert_eq!(modern.header_css_class(), "");
    assert_eq!(classic.header_css_class(), "flat");
    assert_eq!(modern.window_title(), "The Honkers Railway Launcher");
    assert_eq!(classic.window_title(), "");
    assert!(modern.logo_visible());
    assert!(!classic.logo_visible());
}

#[test]
fn window_css_classes() {
    let mut classic = model(LauncherStyle::Classic, None);
    assert_eq!(classic.window_css_classes(false), vec!["background", "csd", "classic-style"]);
    assert_eq!(classic.window_css_classes(true), vec!["background", "csd", "devel", "classic-style"]);
    classic.loading = Some(None);
    assert_eq!(classic.window_css_classes(false), vec!["background", "csd"]);
    let modern = model(LauncherStyle::Modern, None);
    assert_eq!(modern.window_css_classes(true), vec!["background", "csd", "devel"]);
}

#[test]
fn loading_page() {
    let mut app = Model::init(LauncherStyle::Modern);
    assert!(app.status_page_visible());
    assert!(!app.launcher_page_visible());
    assert!(app.status_page_description().is_none());
    app.loading = Some(Some(String::from("Loading game version")));
    assert_eq!(app.status_page_description().map(|s| s.as_str()), Some("Loading game version"));
    app.loading = None;
    assert!(!app.status_page_visible());
    assert!(app.launcher_page_visible());
}

#[test]
fn progress_or_buttons() {
    let mut app = model(LauncherStyle::Modern, None);
    assert!(app.buttons_visible());
    assert!(!app.progress_visible());
    app.downloading = true;
    assert!(!app.buttons_visible());
    assert!(app.progress_visible());
}

#[test]
fn predownload_button() {
    let app = model(
        LauncherStyle::Modern,
        Some(LauncherState::PredownloadAvailable { version: String::from("2.2.0"), size: Some((512, 2048)), diff: 1 }),
    );
    assert!(app.predownload_visible());
    let (version, size) = app.predownload_tooltip();
    assert_eq!(version.map(|v| v.as_str()), Some("2.2.0"));
    assert_eq!(size, Some(512));
    assert!(app.predownload_sensitive(false));
    assert!(!app.predownload_sensitive(true));
    assert_eq!(app.predownload_css_class(false), "warning");
    assert_eq!(app.predownload_css_class(true), "success");

    let unknown_size = model(
        LauncherStyle::Modern,
        Some(LauncherState::PredownloadAvailable { version: String::from("2.2.0"), size: None, diff: 1 }),
    );
    assert_eq!(unknown_size.predownload_tooltip().1, Some(0));

    let launch = model(LauncherStyle::Modern, Some(LauncherState::Launch));
    assert!(!launch.predownload_visible());
    assert_eq!(launch.predownload_tooltip(), (None, None));
    assert!(!launch.predownload_sensitive(false));
    assert_eq!(launch.predownload_css_class(true), "warning");
}

#[test]
fn main_button_labels() {
    let cases: Vec<(State, &str)> = vec![
        (LauncherState::Launch, "launch"),
        (LauncherState::PredownloadAvailable { version: String::new(), size: None, diff: 0 }, "launch"),
        (LauncherState::MainPatchAvailable { status: PatchStatus::Available, patch: 0 }, "apply-patch"),
        (LauncherState::WineNotInstalled, "download-wine"),
        (LauncherState::PrefixNotExists, "create-prefix"),
        (LauncherState::GameUpdateAvailable(0), "update"),
        (LauncherState::GameOutdated(0), "update"),
        (LauncherState::GameNotInstalled(0), "download"),
    ];
    for (state, expected) in cases {
        assert_eq!(key(model(LauncherStyle::Modern, Some(state)).main_button_label()), Some(expected));
    }
    assert!(matches!(model(LauncherStyle::Modern, None).main_button_label(), Caption::Literal("...")));
}

#[test]
fn main_button_state_rules() {
    let patch = |status| model(LauncherStyle::Modern, Some(LauncherState::MainPatchAvailable { status, patch: 0 }));

    let outdated = model(LauncherStyle::Modern, Some(LauncherState::GameOutdated(0)));
    assert!(!outdated.main_button_sensitive());
    assert_eq!(outdated.main_button_css_class(), Some("warning"));
    assert_eq!(outdated.main_button_tooltip(), Some("main-window--version-outdated-tooltip"));

    let missing = patch(PatchStatus::NotAvailable);
    assert!(!missing.main_button_sensitive());
    assert_eq!(missing.main_button_css_class(), Some("error"));
    assert_eq!(missing.main_button_tooltip(), Some("main-window--patch-unavailable-tooltip"));

    let old = patch(PatchStatus::Outdated);
    assert!(!old.main_button_sensitive());
    assert_eq!(old.main_button_css_class(), Some("error"));
    assert_eq!(old.main_button_tooltip(), Some("main-window--patch-outdated-tooltip"));

    let testing = patch(PatchStatus::Testing);
    assert!(testing.main_button_sensitive());
    assert_eq!(testing.main_button_css_class(), Some("warning"));
    assert_eq!(testing.main_button_tooltip(), None);

    let available = patch(PatchStatus::Available);
    assert!(available.main_button_sensitive());
    assert_eq!(available.main_button_css_class(), Some("suggested-action"));

    let mut launch = model(LauncherStyle::Modern, Some(LauncherState::Launch));
    assert!(launch.main_button_sensitive());
    assert_eq!(launch.main_button_css_class(), Some("suggested-action"));
    assert!(launch.preferences_sensitive());
    launch.disabled_buttons = true;
    assert!(!launch.main_button_sensitive());
    assert!(!launch.preferences_sensitive());

    let unknown = model(LauncherStyle::Modern, None);
    assert!(!unknown.main_button_sensitive());
    assert_eq!(unknown.main_button_css_class(), None);
    assert_eq!(unknown.main_button_tooltip(), None);
}
