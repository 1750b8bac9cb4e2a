//! The main window's model and how it answers its inputs.
//!
//! `App::update` takes one input and returns the effects it asks for, in order:
//! messages that go back into the window's own queue, toasts, and work for the
//! caller (loading the launcher state, starting a download, showing a window).
//! Text that the window produces itself is an i18n key; the caller
//! localizes it where it delivers the effect.

use vstd::prelude::*;
use crate::launcher::{Action, LauncherState, LauncherStyle, PatchStatus, StateUpdating};

verus! {

/// The main window's model.
pub struct App<D, P> {
    /// `Some` while the loading page is shown, with its optional description.
    pub loading: Option<Option<String>>,
    pub style: LauncherStyle,
    /// `None` until the launcher state has been loaded.
    pub state: Option<LauncherState<D, P>>,
    /// Whether the progress bar of a download is shown instead of the buttons.
    pub downloading: bool,
    pub disabled_buttons: bool,
}

/// Input of the main window.
#[derive(Debug)]
pub enum AppMsg<D, P> {
    UpdateLauncherState {
        /// Perform action when game or voice downloading is required
        perform_on_download_needed: bool,
        /// Automatically start patch applying if possible and needed
        apply_patch_if_needed: bool,
        /// Show status gathering progress page
        show_status_page: bool,
    },
    /// The latest game version, once it was retrieved.
    SetGameDiff(Option<D>),
    /// The latest main patch, once it was retrieved.
    SetMainPatch(Option<P>),
    SetLauncherState(Option<LauncherState<D, P>>),
    SetLauncherStyle(LauncherStyle),
    SetLoadingStatus(Option<Option<String>>),
    SetDownloading(bool),
    DisableButtons(bool),
    OpenPreferences,
    RepairGame,
    PredownloadUpdate,
    PerformAction,
    HideWindow,
    ShowWindow,
    Toast { title: String, description: Option<String> },
}

/// The options of one launcher state update.
#[derive(Clone, Copy, Debug)]
pub struct LauncherStateQuery {
    pub perform_on_download_needed: bool,
    pub apply_patch_if_needed: bool,
    pub show_status_page: bool,
}

/// A toast notification.
pub struct Toast {
    pub title: String,
    /// Seconds the toast stays.
    pub timeout: u32,
    /// Present when the toast has a description: a button that opens a dialog.
    pub details: Option<ToastDetails>,
}

/// The dialog behind a toast's button.
pub struct ToastDetails {
    /// I18n key of the toast's button.
    pub button_label: &'static str,
    pub heading: String,
    pub body: String,
    /// I18n key of the response that closes the dialog.
    pub close_label: &'static str,
    /// I18n key of the suggested response, which opens the debug file.
    pub save_label: &'static str,
}

/// What the main window asks for.
pub enum Effect<D, P> {
    /// Queue this input for the window itself.
    Send(AppMsg<D, P>),
    ShowToast(Toast),
    /// Show the toast (see `App::toast`) titled by the localized text of the i18n key `title`
    /// and described by `error`.
    ReportError { title: String, error: String },
    /// Compute the launcher state, then hand the result to
    /// `App::launcher_state_loaded` with the same query.
    LoadLauncherState(LauncherStateQuery),
    /// Hand the game diff on to the preferences window.
    ForwardGameDiff(Option<D>),
    /// Hand the main patch on to the preferences window.
    ForwardMainPatch(Option<P>),
    PresentPreferences,
    RepairGame,
    /// Set the caption of the progress bar (an i18n key).
    SetProgressCaption(Option<String>),
    /// Download the update of the current `PredownloadAvailable` state in the
    /// background, then deliver the outcome to `predownload_finished`.
    StartPredownload,
    /// Start the work of the main button on the current launcher state.
    Perform(Action),
    HideWindow,
    PresentWindow,
}

/// Something the window opens or saves for the user, which can fail.
#[derive(Clone, Copy, Debug)]
pub enum UserRequest {
    LauncherFolder,
    GameFolder,
    ConfigFile,
    DebugFile,
    /// Writing the configuration when the window closes.
    ConfigUpdate,
}

impl UserRequest {
    /// I18n key of the toast that reports the failure of the request.
    pub open spec fn spec_error_key(self) -> Seq<char> {
        match self {
            UserRequest::LauncherFolder => "launcher-folder-opening-error"@,
            UserRequest::GameFolder => "game-folder-opening-error"@,
            UserRequest::ConfigFile => "config-file-opening-error"@,
            UserRequest::DebugFile => "debug-file-opening-error"@,
            UserRequest::ConfigUpdate => "config-update-error"@,
        }
    }

    /// The input that reports the failure of the request with its error text.
    pub fn failure_message<D, P>(&self, error: String) -> (msg: AppMsg<D, P>)
        ensures
            msg matches AppMsg::Toast { title, description } && title@ == self.spec_error_key()
                && description == Some(error),
    {
        let key = match self {
            UserRequest::LauncherFolder => "launcher-folder-opening-error",
            UserRequest::GameFolder => "game-folder-opening-error",
            UserRequest::ConfigFile => "config-file-opening-error",
            UserRequest::DebugFile => "debug-file-opening-error",
            UserRequest::ConfigUpdate => "config-update-error",
        };
        AppMsg::Toast { title: text(key), description: Some(error) }
    }
}

/// I18n key of the loading page while the launcher state is computed.
pub open spec fn loading_launcher_state_key() -> Seq<char> {
    "loading-launcher-state"@
}

/// I18n key of the loading page while the game's state is computed.
pub open spec fn loading_game_key() -> Seq<char> {
    "loading-launcher-state--game"@
}

/// I18n key of the loading page while the patch's state is computed.
pub open spec fn loading_patch_key() -> Seq<char> {
    "loading-launcher-state--patch"@
}

/// I18n key of the report of a launcher state that could not be computed.
pub open spec fn state_updating_error_key() -> Seq<char> {
    "launcher-state-updating-error"@
}

/// I18n key of the progress bar's caption during a predownload.
pub open spec fn downloading_key() -> Seq<char> {
    "downloading"@
}

/// I18n key of the report of a failed predownload.
pub open spec fn downloading_failed_key() -> Seq<char> {
    "downloading-failed"@
}

/// `msg` sets the loading page's description to `text`.
pub open spec fn is_loading_text<D, P>(msg: AppMsg<D, P>, text: Seq<char>) -> bool {
    msg matches AppMsg::SetLoadingStatus(Some(Some(s))) && s@ == text
}

/// `t` is the toast of `title` and `description`: shown for four seconds, with
/// a "details" button that opens a dialog of the title and the description
/// exactly when there is a description.
pub open spec fn is_toast(title: String, description: Option<String>, t: Toast) -> bool {
    &&& t.title == title
    &&& t.timeout == 4
    &&& match description {
        None => t.details is None,
        Some(body) => t.details matches Some(d) && {
            &&& d.button_label@ == "details"@
            &&& d.heading == title
            &&& d.body == body
            &&& d.close_label@ == "close"@
            &&& d.save_label@ == "save"@
        },
    }
}

/// The input that asks for a launcher state update with `query`.
pub open spec fn query_msg<D, P>(query: LauncherStateQuery) -> AppMsg<D, P> {
    AppMsg::UpdateLauncherState {
        perform_on_download_needed: query.perform_on_download_needed,
        apply_patch_if_needed: query.apply_patch_if_needed,
        show_status_page: query.show_status_page,
    }
}

/// The query of a plain reload: loading page shown, nothing started by itself.
pub open spec fn reload_query() -> LauncherStateQuery {
    LauncherStateQuery { perform_on_download_needed: false, apply_patch_if_needed: false, show_status_page: true }
}

/// After a launcher state was loaded, the main button is pressed by itself when
/// the query asked for it: for a download when a game download is required and
/// downloads may start by themselves; for the patch when applying it is needed,
/// possible (the patch is available or in testing) and may start by itself.
pub open spec fn performs_after_load<D, P>(query: LauncherStateQuery, state: LauncherState<D, P>) -> bool {
    ||| query.perform_on_download_needed && (state is GameUpdateAvailable || state is GameNotInstalled)
    ||| query.apply_patch_if_needed && (state matches LauncherState::MainPatchAvailable { status, .. }
        && (status is Testing || status is Available))
}

/// What `App::update` does with `msg`: `old` becomes `new` and `effects` are
/// asked for, in this order.
pub open spec fn update_post<D, P>(
    old: App<D, P>,
    msg: AppMsg<D, P>,
    new: App<D, P>,
    effects: Seq<Effect<D, P>>,
) -> bool {
    match msg {
        AppMsg::UpdateLauncherState {
            perform_on_download_needed,
            apply_patch_if_needed,
            show_status_page,
        } => {
            let query = LauncherStateQuery {
                perform_on_download_needed,
                apply_patch_if_needed,
                show_status_page,
            };
            if show_status_page {
                &&& new == old
                &&& effects.len() == 2
                &&& effects[0] matches Effect::Send(m) && is_loading_text(m, loading_launcher_state_key())
                &&& effects[1] == Effect::<D, P>::LoadLauncherState(query)
            } else {
                &&& new == App { disabled_buttons: true, ..old }
                &&& effects == seq![Effect::<D, P>::LoadLauncherState(query)]
            }
        },
        AppMsg::SetGameDiff(diff) => new == old && effects == seq![Effect::<D, P>::ForwardGameDiff(diff)],
        AppMsg::SetMainPatch(patch) => new == old && effects == seq![Effect::<D, P>::ForwardMainPatch(patch)],
        AppMsg::SetLauncherState(state) => new == App { state, ..old } && effects.len() == 0,
        AppMsg::SetLoadingStatus(loading) => new == App { loading, ..old } && effects.len() == 0,
        AppMsg::SetLauncherStyle(style) => new == App { style, ..old } && effects.len() == 0,
        AppMsg::SetDownloading(downloading) => new == App { downloading, ..old } && effects.len() == 0,
        AppMsg::DisableButtons(disabled_buttons) => new == App { disabled_buttons, ..old } && effects.len() == 0,
        AppMsg::OpenPreferences => new == old && effects == seq![Effect::<D, P>::PresentPreferences],
        AppMsg::RepairGame => new == old && effects == seq![Effect::<D, P>::RepairGame],
        AppMsg::PredownloadUpdate => if old.state matches Some(LauncherState::PredownloadAvailable { .. }) {
            &&& new == App { downloading: true, ..old }
            &&& effects.len() == 2
            &&& effects[0] matches Effect::SetProgressCaption(Some(c)) && c@ == downloading_key()
            &&& effects[1] == Effect::<D, P>::StartPredownload
        } else {
            new == old && effects.len() == 0
        },
        AppMsg::PerformAction => new == old && effects == match old.state.unwrap().spec_action() {
            Some(a) => seq![Effect::<D, P>::Perform(a)],
            None => Seq::<Effect<D, P>>::empty(),
        },
        AppMsg::HideWindow => new == old && effects == seq![Effect::<D, P>::HideWindow],
        AppMsg::ShowWindow => new == old && effects == seq![Effect::<D, P>::PresentWindow],
        AppMsg::Toast { title, description } => {
            &&& new == old
            &&& effects.len() == 1
            &&& effects[0] matches Effect::ShowToast(t) && is_toast(title, description, t)
        },
    }
}

/// What `App::launcher_state_loaded` does with the outcome of `query`.
///
/// A failure is reported first and leaves the state unknown. The state is
/// then set by a message; the loading page is closed by a message when the
/// query showed it, the buttons are enabled again otherwise; last, the main
/// button is pressed when `performs_after_load` says so.
pub open spec fn loaded_post<D, P>(
    old: App<D, P>,
    query: LauncherStateQuery,
    result: Result<LauncherState<D, P>, String>,
    new: App<D, P>,
    effects: Seq<Effect<D, P>>,
) -> bool {
    let head = match result {
        Ok(state) => seq![Effect::<D, P>::Send(AppMsg::SetLauncherState(Some(state)))],
        Err(_) => seq![Effect::<D, P>::Send(AppMsg::SetLauncherState(None))],
    };
    let close = if query.show_status_page {
        seq![Effect::<D, P>::Send(AppMsg::SetLoadingStatus(None))]
    } else {
        Seq::<Effect<D, P>>::empty()
    };
    let perform = match result {
        Ok(state) => if performs_after_load(query, state) {
            seq![Effect::<D, P>::Send(AppMsg::PerformAction)]
        } else {
            Seq::<Effect<D, P>>::empty()
        },
        Err(_) => Seq::<Effect<D, P>>::empty(),
    };
    &&& new == (if query.show_status_page { old } else { App { disabled_buttons: false, ..old } })
    &&& match result {
        Ok(_) => effects == head + close + perform,
        Err(err) => {
            &&& effects.len() == 1 + head.len() + close.len()
            &&& effects[0] matches Effect::ReportError { title, error } && title@ == state_updating_error_key()
                && error == err
            &&& effects.subrange(1, effects.len() as int) == head + close
        },
    }
}

/// What `App::predownload_finished` asks for: a toast message on failure, then
/// the progress bar is hidden and the launcher state is reloaded with the
/// loading page shown.
pub open spec fn predownload_finished_post<D, P>(result: Result<(), String>, effects: Seq<Effect<D, P>>) -> bool {
    let tail = seq![
        Effect::<D, P>::Send(AppMsg::SetDownloading(false)),
        Effect::<D, P>::Send(query_msg(reload_query())),
    ];
    match result {
        Ok(()) => effects == tail,
        Err(err) => {
            &&& effects.len() == 3
            &&& effects[0] matches Effect::Send(AppMsg::Toast { title, description })
                && title@ == downloading_failed_key() && description == Some(err)
            &&& effects.subrange(1, 3) == tail
        },
    }
}

/// An owned copy of `s`.
fn text(s: &'static str) -> (r: String)
    ensures
        r@ == s@,
{
    s.to_owned()
}

impl<D, P> App<D, P> {
    /// The model of a freshly opened window: loading page shown without a
    /// description, launcher state unknown, buttons enabled.
    pub fn init(style: LauncherStyle) -> (app: Self)
        ensures
            app.loading == Some(None::<String>),
            app.style == style,
            app.state is None,
            !app.downloading,
            !app.disabled_buttons,
    {
        App { loading: Some(None), style, state: None, downloading: false, disabled_buttons: false }
    }

    /// Whether the background picture has to be downloaded when the window
    /// opens: in the classic style, unless the picture is to be kept as it is.
    pub fn needs_background_picture(&self, keep_background_file_exists: bool) -> (needed: bool)
        ensures
            needed == (self.style is Classic && !keep_background_file_exists),
    {
        match self.style {
            LauncherStyle::Classic => !keep_background_file_exists,
            LauncherStyle::Modern => false,
        }
    }

    /// Builds the toast of `title` and `description`.
    pub fn toast(&self, title: String, description: Option<String>) -> (t: Toast)
        ensures
            is_toast(title, description, t),
    {
        let details = match description {
            Some(body) => Some(
                ToastDetails {
                    button_label: "details",
                    heading: title.clone(),
                    body,
                    close_label: "close",
                    save_label: "save",
                },
            ),
            None => None,
        };
        Toast { title, timeout: 4, details }
    }

    /// Answers one input.
    pub fn update(&mut self, msg: AppMsg<D, P>) -> (effects: Vec<Effect<D, P>>)
        requires
            msg is PerformAction ==> old(self).state is Some,
        ensures
            update_post(*old(self), msg, *final(self), effects@),
    {
        let mut effects: Vec<Effect<D, P>> = Vec::new();
        match msg {
            AppMsg::UpdateLauncherState {
                perform_on_download_needed,
                apply_patch_if_needed,
                show_status_page,
            } => {
                if show_status_page {
                    effects.push(
                        Effect::Send(AppMsg::SetLoadingStatus(Some(Some(text("loading-launcher-state"))))),
                    );
                } else {
                    self.disabled_buttons = true;
                }
                effects.push(
                    Effect::LoadLauncherState(
                        LauncherStateQuery {
                            perform_on_download_needed,
                            apply_patch_if_needed,
                            show_status_page,
                        },
                    ),
                );
            },
            AppMsg::SetGameDiff(diff) => effects.push(Effect::ForwardGameDiff(diff)),
            AppMsg::SetMainPatch(patch) => effects.push(Effect::ForwardMainPatch(patch)),
            AppMsg::SetLauncherState(state) => self.state = state,
            AppMsg::SetLoadingStatus(loading) => self.loading = loading,
            AppMsg::SetLauncherStyle(style) => self.style = style,
            AppMsg::SetDownloading(downloading) => self.downloading = downloading,
            AppMsg::DisableButtons(disabled) => self.disabled_buttons = disabled,
            AppMsg::OpenPreferences => effects.push(Effect::PresentPreferences),
            AppMsg::RepairGame => effects.push(Effect::RepairGame),
            AppMsg::PredownloadUpdate => {
                if let Some(LauncherState::PredownloadAvailable { .. }) = &self.state {
                    self.downloading = true;
                    effects.push(Effect::SetProgressCaption(Some(text("downloading"))));
                    effects.push(Effect::StartPredownload);
                }
            },
            AppMsg::PerformAction => {
                if let Some(state) = &self.state {
                    if let Some(action) = state.action() {
                        effects.push(Effect::Perform(action));
                    }
                }
            },
            AppMsg::HideWindow => effects.push(Effect::HideWindow),
            AppMsg::ShowWindow => effects.push(Effect::PresentWindow),
            AppMsg::Toast { title, description } => {
                let t = self.toast(title, description);
                effects.push(Effect::ShowToast(t));
            },
        }
        effects
    }

    /// While the launcher state is computed: the loading page's description for
    /// the part being computed, when the query shows the loading page.
    pub fn state_updating_message(query: LauncherStateQuery, updating: StateUpdating) -> (msg: Option<AppMsg<D, P>>)
        ensures
            query.show_status_page ==> (msg matches Some(m) && is_loading_text(m, match updating {
                StateUpdating::Game => loading_game_key(),
                StateUpdating::Patch => loading_patch_key(),
            })),
            !query.show_status_page ==> msg is None,
    {
        if query.show_status_page {
            match updating {
                StateUpdating::Game => Some(
                    AppMsg::SetLoadingStatus(Some(Some(text("loading-launcher-state--game")))),
                ),
                StateUpdating::Patch => Some(
                    AppMsg::SetLoadingStatus(Some(Some(text("loading-launcher-state--patch")))),
                ),
            }
        } else {
            None
        }
    }

    /// Takes the outcome of the query that `update` asked for with
    /// `Effect::LoadLauncherState(query)`.
    pub fn launcher_state_loaded(
        &mut self,
        query: LauncherStateQuery,
        result: Result<LauncherState<D, P>, String>,
    ) -> (effects: Vec<Effect<D, P>>)
        ensures
            loaded_post(*old(self), query, result, *final(self), effects@),
    {
        let ghost old_result = result;
        let mut effects: Vec<Effect<D, P>> = Vec::new();
        let mut perform = false;
        match result {
            Ok(state) => {
                perform = match &state {
                    LauncherState::GameUpdateAvailable(_) | LauncherState::GameNotInstalled(_) => query.perform_on_download_needed,
                    LauncherState::MainPatchAvailable { status: PatchStatus::Testing, .. }
                    | LauncherState::MainPatchAvailable { status: PatchStatus::Available, .. } => query.apply_patch_if_needed,
                    _ => false,
                };
                effects.push(Effect::Send(AppMsg::SetLauncherState(Some(state))));
            },
            Err(err) => {
                effects.push(Effect::ReportError { title: text("launcher-state-updating-error"), error: err });
                effects.push(Effect::Send(AppMsg::SetLauncherState(None)));
            },
        }
        if query.show_status_page {
            effects.push(Effect::Send(AppMsg::SetLoadingStatus(None)));
        } else {
            self.disabled_buttons = false;
        }
        if perform {
            effects.push(Effect::Send(AppMsg::PerformAction));
        }
        proof {
            let head = match old_result {
                Ok(state) => seq![Effect::<D, P>::Send(AppMsg::SetLauncherState(Some(state)))],
                Err(_) => seq![Effect::<D, P>::Send(AppMsg::SetLauncherState(None))],
            };
            let close = if query.show_status_page {
                seq![Effect::<D, P>::Send(AppMsg::SetLoadingStatus(None))]
            } else {
                Seq::<Effect<D, P>>::empty()
            };
            let tail = if perform {
                seq![Effect::<D, P>::Send(AppMsg::PerformAction)]
            } else {
                Seq::<Effect<D, P>>::empty()
            };
            if old_result is Ok {
                assert(effects@ =~= head + close + tail);
            } else {
                assert(effects@.subrange(1, effects@.len() as int) =~= head + close);
            }
        }
        effects
    }

    /// The input that reloads the launcher state with the loading page shown
    /// and nothing started by itself.
    pub fn reload_launcher_state_msg() -> (msg: AppMsg<D, P>)
        ensures
            msg == query_msg::<D, P>(reload_query()),
    {
        AppMsg::UpdateLauncherState {
            perform_on_download_needed: false,
            apply_patch_if_needed: false,
            show_status_page: true,
        }
    }

    /// Takes the outcome of the download that `Effect::StartPredownload` started.
    pub fn predownload_finished(result: Result<(), String>) -> (effects: Vec<Effect<D, P>>)
        ensures
            predownload_finished_post(result, effects@),
    {
        let ghost old_result = result;
        let mut effects: Vec<Effect<D, P>> = Vec::new();
        if let Err(err) = result {
            effects.push(
                Effect::Send(AppMsg::Toast { title: text("downloading-failed"), description: Some(err) }),
            );
        }
        effects.push(Effect::Send(AppMsg::SetDownloading(false)));
        effects.push(Effect::Send(Self::reload_launcher_state_msg()));
        proof {
            let tail = seq![
                Effect::<D, P>::Send(AppMsg::SetDownloading(false)),
                Effect::<D, P>::Send(query_msg(reload_query())),
            ];
            if old_result is Ok {
                assert(effects@ =~= tail);
            } else {
                assert(effects@.subrange(1, 3) =~= tail);
            }
        }
        effects
    }
}


/// The state that a loading outcome leaves: the loaded one, or none on failure.
pub open spec fn loaded_state<D, P>(result: Result<LauncherState<D, P>, String>) -> Option<LauncherState<D, P>> {
    match result {
        Ok(state) => Some(state),
        Err(_) => None,
    }
}

/// Loading the launcher state gives everything back as it was: without the
/// loading page the buttons are disabled while the state is computed and
/// enabled again when it arrives; with it, the buttons are left alone, the page
/// first gets its description and is closed at the end. Either way the window
/// then receives the loaded state (none on failure).
pub proof fn lemma_launcher_state_round_trip<D, P>(
    a0: App<D, P>,
    query: LauncherStateQuery,
    a1: App<D, P>,
    e1: Seq<Effect<D, P>>,
    result: Result<LauncherState<D, P>, String>,
    a2: App<D, P>,
    e2: Seq<Effect<D, P>>,
)
    requires
        update_post(a0, query_msg(query), a1, e1),
        loaded_post(a1, query, result, a2, e2),
    ensures
        e1.len() > 0 && e1.last() == Effect::<D, P>::LoadLauncherState(query),
        !query.show_status_page ==> a1.disabled_buttons && a2 == (App { disabled_buttons: false, ..a0 }),
        query.show_status_page ==> ({
            &&& a2 == a0
            &&& e1[0] matches Effect::Send(m) && is_loading_text(m, loading_launcher_state_key())
            &&& e2.contains(Effect::<D, P>::Send(AppMsg::SetLoadingStatus(None)))
        }),
        e2.contains(Effect::<D, P>::Send(AppMsg::SetLauncherState(loaded_state(result)))),
{
    let set_state = Effect::<D, P>::Send(AppMsg::SetLauncherState(loaded_state(result)));
    let close = Effect::<D, P>::Send(AppMsg::SetLoadingStatus(None));
    match result {
        Ok(_) => {
            assert(e2[0] == set_state);
            if query.show_status_page {
                assert(e2[1] == close);
            }
        },
        Err(_) => {
            let rest = e2.subrange(1, e2.len() as int);
            assert(rest[0] == set_state);
            assert(e2[1] == rest[0]);
            if query.show_status_page {
                assert(rest[1] == close);
                assert(e2[2] == rest[1]);
            }
        },
    }
}

/// An enabled main button always has work to start: with the buttons enabled
/// and a state that allows an action, pressing it asks for exactly that action.
pub proof fn lemma_enabled_main_button_acts<D, P>(a: App<D, P>, a2: App<D, P>, effects: Seq<Effect<D, P>>)
    requires
        !a.disabled_buttons,
        crate::layout::spec_state_allows_action(a.state),
        update_post(a, AppMsg::PerformAction, a2, effects),
    ensures
        a2 == a,
        effects.len() == 1,
        effects[0] == Effect::<D, P>::Perform(a.state.unwrap().spec_action().unwrap()),
{
}

/// The predownload button is shown exactly when pressing it starts a download.
pub proof fn lemma_predownload_button_starts_download<D, P>(a: App<D, P>, a2: App<D, P>, effects: Seq<Effect<D, P>>)
    requires
        update_post(a, AppMsg::PredownloadUpdate, a2, effects),
    ensures
        (a.state matches Some(LauncherState::PredownloadAvailable { .. })) <==> effects.contains(Effect::<D, P>::StartPredownload),
        effects.contains(Effect::<D, P>::StartPredownload) ==> a2.downloading,
{
    if a.state matches Some(LauncherState::PredownloadAvailable { .. }) {
        assert(effects[1] == Effect::<D, P>::StartPredownload);
    }
}

/// A game too old to be updated can only be launched after it is reinstalled:
/// its main button is disabled and pressing it does nothing.
pub proof fn lemma_outdated_game_does_nothing<D, P>(a: App<D, P>, a2: App<D, P>, effects: Seq<Effect<D, P>>)
    requires
        a.state matches Some(LauncherState::GameOutdated(_)),
        update_post(a, AppMsg::PerformAction, a2, effects),
    ensures
        !crate::layout::spec_state_allows_action(a.state),
        a2 == a,
        effects.len() == 0,
{
}

/// The main button is only pressed by itself for the work the query allowed,
/// and only when a user could press it too: a download when downloads may
/// start by themselves, applying the patch when the patch may be applied.
pub proof fn lemma_automatic_action_is_allowed<D, P>(
    a1: App<D, P>,
    query: LauncherStateQuery,
    state: LauncherState<D, P>,
    a2: App<D, P>,
    effects: Seq<Effect<D, P>>,
)
    requires
        loaded_post(a1, query, Ok(state), a2, effects),
        effects.contains(Effect::<D, P>::Send(AppMsg::PerformAction)),
    ensures
        crate::layout::spec_state_allows_action(Some(state)),
        state.spec_action() == Some(Action::DownloadDiff) ==> query.perform_on_download_needed,
        state.spec_action() == Some(Action::ApplyPatch) ==> query.apply_patch_if_needed,
        state.spec_action() is Some,
        state.spec_action() != Some(Action::Launch),
{
    let head = seq![Effect::<D, P>::Send(AppMsg::SetLauncherState(Some(state)))];
    let close = if query.show_status_page {
        seq![Effect::<D, P>::Send(AppMsg::SetLoadingStatus(None))]
    } else {
        Seq::<Effect<D, P>>::empty()
    };
    if !performs_after_load(query, state) {
        assert(effects =~= head + close);
        let k = choose|k: int| 0 <= k < effects.len() && effects[k] == Effect::<D, P>::Send(AppMsg::PerformAction);
        assert(effects[k] == (head + close)[k]);
    }
}

/// The main button is pressed by itself after a load exactly when the query
/// asked for the loaded state's work and a user could start it too: a game
/// download (update or first install) when downloads may start by themselves,
/// a patch that can be applied (available or in testing) when patches may be
/// applied by themselves. A failed load never presses it.
pub proof fn lemma_automatic_action_exactly_when_asked<D, P>(
    a1: App<D, P>,
    query: LauncherStateQuery,
    result: Result<LauncherState<D, P>, String>,
    a2: App<D, P>,
    effects: Seq<Effect<D, P>>,
)
    requires
        loaded_post(a1, query, result, a2, effects),
    ensures
        effects.contains(Effect::<D, P>::Send(AppMsg::PerformAction)) <==> (result matches Ok(state) && (
            (query.perform_on_download_needed && state.spec_action() == Some(Action::DownloadDiff))
            || (query.apply_patch_if_needed && state.spec_action() == Some(Action::ApplyPatch)
                && crate::layout::spec_state_allows_action(Some(state))))),
        result matches Ok(LauncherState::MainPatchAvailable { status, .. }) && query.apply_patch_if_needed
            && (status is Available || status is Testing)
            ==> effects.contains(Effect::<D, P>::Send(AppMsg::PerformAction)),
        result matches Ok(s) && (s is GameUpdateAvailable || s is GameNotInstalled) && query.perform_on_download_needed
            ==> effects.contains(Effect::<D, P>::Send(AppMsg::PerformAction)),
{
    let perform = Effect::<D, P>::Send(AppMsg::PerformAction);
    let close = if query.show_status_page {
        seq![Effect::<D, P>::Send(AppMsg::SetLoadingStatus(None))]
    } else {
        Seq::<Effect<D, P>>::empty()
    };
    match result {
        Ok(state) => {
            crate::launcher::lemma_action_of_each_state(state);
            let head = seq![Effect::<D, P>::Send(AppMsg::SetLauncherState(Some(state)))];
            if performs_after_load(query, state) {
                assert(effects[effects.len() - 1] == perform);
            } else {
                assert(effects =~= head + close);
                if effects.contains(perform) {
                    let k = choose|k: int| 0 <= k < effects.len() && effects[k] == perform;
                    assert(effects[k] == (head + close)[k]);
                }
            }
        },
        Err(err) => {
            let head = seq![Effect::<D, P>::Send(AppMsg::SetLauncherState(None))];
            let rest = effects.subrange(1, effects.len() as int);
            assert(rest =~= head + close);
            if effects.contains(perform) {
                let k = choose|k: int| 0 <= k < effects.len() && effects[k] == perform;
                if k > 0 {
                    assert(effects[k] == rest[k - 1]);
                }
            }
        },
    }
}

/// The keys of the texts the window produces itself.
pub proof fn lemma_window_keys()
    ensures
        loading_launcher_state_key() == "loading-launcher-state"@,
        loading_game_key() == "loading-launcher-state--game"@,
        loading_patch_key() == "loading-launcher-state--patch"@,
        state_updating_error_key() == "launcher-state-updating-error"@,
        downloading_key() == "downloading"@,
        downloading_failed_key() == "downloading-failed"@,
        UserRequest::LauncherFolder.spec_error_key() == "launcher-folder-opening-error"@,
        UserRequest::GameFolder.spec_error_key() == "game-folder-opening-error"@,
        UserRequest::ConfigFile.spec_error_key() == "config-file-opening-error"@,
        UserRequest::DebugFile.spec_error_key() == "debug-file-opening-error"@,
        UserRequest::ConfigUpdate.spec_error_key() == "config-update-error"@,
{
}

/// A toast keeps its title and stays four seconds; it has a details button
/// exactly when it has a description, and the dialog behind the button shows
/// the title and the description.
pub proof fn lemma_toast_shape(title: String, description: Option<String>, t: Toast)
    requires
        is_toast(title, description, t),
    ensures
        t.title == title,
        t.timeout == 4,
        t.details is Some <==> description is Some,
        t.details matches Some(d) ==> d.heading == title && Some(d.body) == description,
{
}

/// How the window answers each input: a setter changes its own field and
/// nothing else; a launcher state update asks for the state with the query of
/// the input, first showing the loading text or disabling the buttons; the
/// preferences, repair, hide, show and toast inputs each ask for exactly their
/// one effect; the main button asks for the state's work, if it has one; the
/// predownload button starts a download only when one is on offer.
pub proof fn lemma_update_answers<D, P>(old: App<D, P>, msg: AppMsg<D, P>, new: App<D, P>, effects: Seq<Effect<D, P>>)
    requires
        update_post(old, msg, new, effects),
    ensures
        match msg {
            AppMsg::UpdateLauncherState { perform_on_download_needed, apply_patch_if_needed, show_status_page } => {
                &&& effects.len() > 0
                &&& effects.last() == Effect::<D, P>::LoadLauncherState(LauncherStateQuery {
                    perform_on_download_needed,
                    apply_patch_if_needed,
                    show_status_page,
                })
                &&& new.state == old.state && new.loading == old.loading && new.style == old.style
                &&& new.downloading == old.downloading
                &&& show_status_page ==> (new.disabled_buttons == old.disabled_buttons && effects.len() == 2
                    && (effects[0] matches Effect::Send(AppMsg::SetLoadingStatus(Some(Some(t))))
                    && t@ == "loading-launcher-state"@))
                &&& !show_status_page ==> new.disabled_buttons && effects.len() == 1
            },
            AppMsg::SetGameDiff(d) => new == old && effects.len() == 1 && effects[0] == Effect::<D, P>::ForwardGameDiff(d),
            AppMsg::SetMainPatch(p) => new == old && effects.len() == 1 && effects[0] == Effect::<D, P>::ForwardMainPatch(p),
            AppMsg::SetLauncherState(st) => new.state == st && new.loading == old.loading && new.style == old.style
                && new.downloading == old.downloading && new.disabled_buttons == old.disabled_buttons && effects.len() == 0,
            AppMsg::SetLoadingStatus(l) => new.loading == l && new.state == old.state && new.style == old.style
                && new.downloading == old.downloading && new.disabled_buttons == old.disabled_buttons && effects.len() == 0,
            AppMsg::SetLauncherStyle(st) => new.style == st && new.state == old.state && new.loading == old.loading
                && new.downloading == old.downloading && new.disabled_buttons == old.disabled_buttons && effects.len() == 0,
            AppMsg::SetDownloading(d) => new.downloading == d && new.state == old.state && new.loading == old.loading
                && new.style == old.style && new.disabled_buttons == old.disabled_buttons && effects.len() == 0,
            AppMsg::DisableButtons(d) => new.disabled_buttons == d && new.state == old.state && new.loading == old.loading
                && new.style == old.style && new.downloading == old.downloading && effects.len() == 0,
            AppMsg::OpenPreferences => new == old && effects.len() == 1 && effects[0] is PresentPreferences,
            AppMsg::RepairGame => new == old && effects.len() == 1 && effects[0] is RepairGame,
            AppMsg::HideWindow => new == old && effects.len() == 1 && effects[0] is HideWindow,
            AppMsg::ShowWindow => new == old && effects.len() == 1 && effects[0] is PresentWindow,
            AppMsg::PerformAction => new == old && (match old.state.unwrap().spec_action() {
                Some(a) => effects.len() == 1 && effects[0] == Effect::<D, P>::Perform(a),
                None => effects.len() == 0,
            }),
            AppMsg::PredownloadUpdate => if old.state matches Some(LauncherState::PredownloadAvailable { .. }) {
                &&& new.downloading
                &&& new.state == old.state && new.loading == old.loading && new.style == old.style
                &&& new.disabled_buttons == old.disabled_buttons
                &&& effects.len() == 2
                &&& effects[0] matches Effect::SetProgressCaption(Some(c)) && c@ == "downloading"@
                &&& effects[1] is StartPredownload
            } else {
                new == old && effects.len() == 0
            },
            AppMsg::Toast { title, description } => new == old && effects.len() == 1
                && (effects[0] matches Effect::ShowToast(t) && t.title == title && t.timeout == 4
                && (t.details is Some <==> description is Some)),
        },
{
}

/// A launcher state that could not be computed is reported first, with the
/// error's text, and leaves the state unknown.
pub proof fn lemma_failed_load_reported<D, P>(
    a1: App<D, P>,
    query: LauncherStateQuery,
    err: String,
    a2: App<D, P>,
    effects: Seq<Effect<D, P>>,
)
    requires
        loaded_post(a1, query, Err(err), a2, effects),
    ensures
        effects.len() >= 2,
        effects[0] matches Effect::ReportError { title, error } && title@ == "launcher-state-updating-error"@
            && error == err,
        effects[1] == Effect::<D, P>::Send(AppMsg::SetLauncherState(None)),
        a2.state == a1.state,
{
    let rest = effects.subrange(1, effects.len() as int);
    assert(effects[1] == rest[0]);
}

/// After a predownload the progress bar gives way to the buttons and the
/// launcher state is loaded again, with the loading page and nothing started
/// by itself; a failed download is reported first, with the error's text.
pub proof fn lemma_predownload_finished<D, P>(result: Result<(), String>, effects: Seq<Effect<D, P>>)
    requires
        predownload_finished_post(result, effects),
    ensures
        effects.len() >= 2,
        effects[effects.len() - 2] == Effect::<D, P>::Send(AppMsg::SetDownloading(false)),
        effects[effects.len() - 1] == Effect::<D, P>::Send(AppMsg::UpdateLauncherState {
            perform_on_download_needed: false,
            apply_patch_if_needed: false,
            show_status_page: true,
        }),
        result is Ok ==> effects.len() == 2,
        result matches Err(e) ==> (effects.len() == 3 && (effects[0] matches Effect::Send(AppMsg::Toast { title, description })
            && title@ == "downloading-failed"@ && description == Some(e))),
{
    if result is Err {
        let rest = effects.subrange(1, 3);
        assert(effects[1] == rest[0]);
        assert(effects[2] == rest[1]);
    }
}

/// A loading text is a message that shows exactly that text on the loading
/// page; a plain reload shows the loading page and starts nothing by itself.
pub proof fn lemma_message_shapes<D, P>(msg: AppMsg<D, P>, text: Seq<char>)
    ensures
        is_loading_text(msg, text) <==> (msg matches AppMsg::SetLoadingStatus(Some(Some(s))) && s@ == text),
        query_msg::<D, P>(reload_query()) == (AppMsg::<D, P>::UpdateLauncherState {
            perform_on_download_needed: false,
            apply_patch_if_needed: false,
            show_status_page: true,
        }),
{
}

} // verus!
