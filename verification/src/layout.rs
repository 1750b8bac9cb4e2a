//! What the main window shows for a given model: sizes, visibility, labels,
//! style classes and tooltips of its parts.

use vstd::prelude::*;
use crate::launcher::{Action, LauncherState, LauncherStyle, PatchStatus};
use crate::main_window::App;

verus! {

/// Alignment of a group of widgets along one axis.
#[derive(Clone, Copy, Debug)]
pub enum Align {
    Center,
    End,
}

/// A caption: an i18n key, or text shown as it is.
#[derive(Clone, Copy, Debug)]
pub enum Caption {
    Key(&'static str),
    Literal(&'static str),
}

/// Title of the header bar in the modern style.
pub open spec fn app_title() -> Seq<char> {
    "The Honkers Railway Launcher"@
}

/// Style classes of the window: always "background" and "csd", "devel" in a
/// debug build, and "classic-style" in the classic style once loading is over.
pub open spec fn spec_window_css_classes(style: LauncherStyle, loading: bool, app_debug: bool) -> Seq<Seq<char>> {
    seq!["background"@, "csd"@]
        + (if app_debug { seq!["devel"@] } else { Seq::empty() })
        + (if style is Classic && !loading { seq!["classic-style"@] } else { Seq::empty() })
}

/// The width for `Modern`, the width for `Classic`: the size requests that
/// follow the style.
pub open spec fn by_style(style: LauncherStyle, modern: int, classic: int) -> int {
    match style {
        LauncherStyle::Modern => modern,
        LauncherStyle::Classic => classic,
    }
}

/// Whether the main button can be pressed in `state`: not while the state is
/// unknown, not for a game too old to update, not for a patch that is missing
/// or outdated.
pub open spec fn spec_state_allows_action<D, P>(state: Option<LauncherState<D, P>>) -> bool {
    match state {
        None => false,
        Some(LauncherState::GameOutdated(_)) => false,
        Some(LauncherState::MainPatchAvailable { status: PatchStatus::NotAvailable, .. }) => false,
        Some(LauncherState::MainPatchAvailable { status: PatchStatus::Outdated, .. }) => false,
        Some(_) => true,
    }
}

/// I18n key of the main button's label; `None` while the state is
/// unknown, when the label is "...".
pub open spec fn spec_main_button_key<D, P>(state: Option<LauncherState<D, P>>) -> Option<Seq<char>> {
    match state {
        None => None,
        Some(LauncherState::Launch) => Some("launch"@),
        Some(LauncherState::PredownloadAvailable { .. }) => Some("launch"@),
        Some(LauncherState::MainPatchAvailable { .. }) => Some("apply-patch"@),
        Some(LauncherState::WineNotInstalled) => Some("download-wine"@),
        Some(LauncherState::PrefixNotExists) => Some("create-prefix"@),
        Some(LauncherState::GameUpdateAvailable(_)) => Some("update"@),
        Some(LauncherState::GameOutdated(_)) => Some("update"@),
        Some(LauncherState::GameNotInstalled(_)) => Some("download"@),
    }
}

/// Style class of the main button: a warning for an outdated game or a patch in
/// testing, an error for a missing or outdated patch, the suggested action
/// otherwise; none while the state is unknown.
pub open spec fn spec_main_button_css<D, P>(state: Option<LauncherState<D, P>>) -> Option<Seq<char>> {
    match state {
        None => None,
        Some(LauncherState::GameOutdated(_)) => Some("warning"@),
        Some(LauncherState::MainPatchAvailable { status: PatchStatus::NotAvailable, .. }) => Some("error"@),
        Some(LauncherState::MainPatchAvailable { status: PatchStatus::Outdated, .. }) => Some("error"@),
        Some(LauncherState::MainPatchAvailable { status: PatchStatus::Testing, .. }) => Some("warning"@),
        Some(_) => Some("suggested-action"@),
    }
}

/// I18n key of the main button's tooltip; `None` for an empty tooltip.
pub open spec fn spec_main_button_tooltip<D, P>(state: Option<LauncherState<D, P>>) -> Option<Seq<char>> {
    match state {
        Some(LauncherState::GameOutdated(_)) => Some("main-window--version-outdated-tooltip"@),
        Some(LauncherState::MainPatchAvailable { status: PatchStatus::NotAvailable, .. }) => Some(
            "main-window--patch-unavailable-tooltip"@,
        ),
        Some(LauncherState::MainPatchAvailable { status: PatchStatus::Outdated, .. }) => Some(
            "main-window--patch-outdated-tooltip"@,
        ),
        _ => None,
    }
}

pub open spec fn caption_is_key(c: Caption, key: Seq<char>) -> bool {
    c matches Caption::Key(k) && k@ == key
}

impl<D, P> App<D, P> {
    /// Default size of the window: 900x600 in the modern style, 1094x624 in the
    /// classic one (the classic background is 1280x730).
    pub fn default_size(&self) -> (size: (i32, i32))
        ensures
            size.0 == by_style(self.style, 900, 1094),
            size.1 == by_style(self.style, 600, 624),
    {
        match self.style {
            LauncherStyle::Modern => (900, 600),
            LauncherStyle::Classic => (1094, 624),
        }
    }

    /// Style classes of the window; `app_debug` tells a debug build.
    pub fn window_css_classes(&self, app_debug: bool) -> (classes: Vec<&'static str>)
        ensures
            classes@.len() == spec_window_css_classes(self.style, self.loading is Some, app_debug).len(),
            forall|i: int|
                0 <= i < classes@.len() ==> #[trigger] classes@[i]@ == spec_window_css_classes(
                    self.style,
                    self.loading is Some,
                    app_debug,
                )[i],
    {
        let mut classes: Vec<&'static str> = Vec::new();
        classes.push("background");
        classes.push("csd");
        if app_debug {
            classes.push("devel");
        }
        match self.style {
            LauncherStyle::Modern => {},
            LauncherStyle::Classic => {
                if self.loading.is_none() {
                    classes.push("classic-style");
                }
            },
        }
        classes
    }

    /// Style class of the header bar: none in the modern style, "flat" in the
    /// classic one.
    pub fn header_css_class(&self) -> (class: &'static str)
        ensures
            class@ == (if self.style is Modern { ""@ } else { "flat"@ }),
    {
        match self.style {
            LauncherStyle::Modern => "",
            LauncherStyle::Classic => "flat",
        }
    }

    /// Title of the header bar: the launcher's name in the modern style, empty
    /// in the classic one.
    pub fn window_title(&self) -> (title: &'static str)
        ensures
            title@ == (if self.style is Modern { app_title() } else { ""@ }),
    {
        match self.style {
            LauncherStyle::Modern => "The Honkers Railway Launcher",
            LauncherStyle::Classic => "",
        }
    }

    /// The loading page is shown while loading.
    pub fn status_page_visible(&self) -> (visible: bool)
        ensures
            visible == self.loading is Some,
    {
        self.loading.is_some()
    }

    /// Description of the loading page.
    pub fn status_page_description(&self) -> (description: Option<&String>)
        ensures
            match self.loading {
                Some(Some(d)) => description == Some(&d),
                _ => description is None,
            },
    {
        match &self.loading {
            Some(Some(d)) => Some(d),
            _ => None,
        }
    }

    /// The launcher page is shown once loading is over.
    pub fn launcher_page_visible(&self) -> (visible: bool)
        ensures
            visible == self.loading is None,
    {
        self.loading.is_none()
    }

    /// The icon and name are shown in the modern style only.
    pub fn logo_visible(&self) -> (visible: bool)
        ensures
            visible == self.style is Modern,
    {
        match self.style {
            LauncherStyle::Modern => true,
            LauncherStyle::Classic => false,
        }
    }

    /// Alignment of the progress and button groups (vertically) and of the
    /// button row (horizontally): centered in the modern style, at the end in
    /// the classic one.
    pub fn controls_align(&self) -> (align: Align)
        ensures
            align == (if self.style is Modern { Align::Center } else { Align::End }),
    {
        match self.style {
            LauncherStyle::Modern => Align::Center,
            LauncherStyle::Classic => Align::End,
        }
    }

    /// Requested width of the progress and button groups (-1: natural width).
    pub fn controls_width_request(&self) -> (width: i32)
        ensures
            width == by_style(self.style, -1, 800),
    {
        match self.style {
            LauncherStyle::Modern => -1,
            LauncherStyle::Classic => 800,
        }
    }

    /// The progress bar is shown during a download.
    pub fn progress_visible(&self) -> (visible: bool)
        ensures
            visible == self.downloading,
    {
        self.downloading
    }

    /// The buttons are shown unless a download runs.
    pub fn buttons_visible(&self) -> (visible: bool)
        ensures
            visible == !self.downloading,
    {
        !self.downloading
    }

    /// Bottom margin of the button group.
    pub fn buttons_margin_bottom(&self) -> (margin: i32)
        ensures
            margin == by_style(self.style, 48, 0),
    {
        match self.style {
            LauncherStyle::Modern => 48,
            LauncherStyle::Classic => 0,
        }
    }

    /// Requested height of the button row, and requested width of the small
    /// round buttons (predownload, preferences); -1 is the natural size.
    pub fn small_button_size(&self) -> (size: i32)
        ensures
            size == by_style(self.style, -1, 40),
    {
        match self.style {
            LauncherStyle::Modern => -1,
            LauncherStyle::Classic => 40,
        }
    }

    /// The predownload button is shown when an update can be predownloaded.
    pub fn predownload_visible(&self) -> (visible: bool)
        ensures
            visible == (self.state matches Some(LauncherState::PredownloadAvailable { .. })),
    {
        match &self.state {
            Some(LauncherState::PredownloadAvailable { .. }) => true,
            _ => false,
        }
    }

    /// The values that the predownload button's tooltip names: the version the
    /// update leads to and its download size in bytes (0 when unknown); `None`
    /// stands for "?", shown when no update can be predownloaded.
    pub fn predownload_tooltip(&self) -> (values: (Option<&String>, Option<u64>))
        ensures
            match self.state {
                Some(LauncherState::PredownloadAvailable { version, size, .. }) => {
                    &&& values.0 == Some(&version)
                    &&& values.1 == Some(match size {
                        Some(s) => s.0,
                        None => 0u64,
                    })
                },
                _ => values.0 is None && values.1 is None,
            },
    {
        match &self.state {
            Some(LauncherState::PredownloadAvailable { version, size, .. }) => {
                let bytes = match size {
                    Some(s) => s.0,
                    None => 0,
                };
                (Some(version), Some(bytes))
            },
            _ => (None, None),
        }
    }

    /// The predownload button can be pressed while the update is not downloaded
    /// yet; `downloaded` tells whether its archive is in the temporary folder.
    pub fn predownload_sensitive(&self, downloaded: bool) -> (sensitive: bool)
        ensures
            sensitive == (self.state matches Some(LauncherState::PredownloadAvailable { .. }) && !downloaded),
    {
        match &self.state {
            Some(LauncherState::PredownloadAvailable { .. }) => !downloaded,
            _ => false,
        }
    }

    /// Style class of the predownload button: "success" once the update is
    /// downloaded, "warning" otherwise.
    pub fn predownload_css_class(&self, downloaded: bool) -> (class: &'static str)
        ensures
            class@ == (if self.state matches Some(LauncherState::PredownloadAvailable { .. }) && downloaded {
                "success"@
            } else {
                "warning"@
            }),
    {
        match &self.state {
            Some(LauncherState::PredownloadAvailable { .. }) => if downloaded {
                "success"
            } else {
                "warning"
            },
            _ => "warning",
        }
    }

    /// Label of the main button.
    pub fn main_button_label(&self) -> (label: Caption)
        ensures
            match spec_main_button_key(self.state) {
                Some(key) => caption_is_key(label, key),
                None => label matches Caption::Literal(t) && t@ == "..."@,
            },
    {
        match &self.state {
            Some(LauncherState::Launch) => Caption::Key("launch"),
            Some(LauncherState::PredownloadAvailable { .. }) => Caption::Key("launch"),
            Some(LauncherState::MainPatchAvailable { .. }) => Caption::Key("apply-patch"),
            Some(LauncherState::WineNotInstalled) => Caption::Key("download-wine"),
            Some(LauncherState::PrefixNotExists) => Caption::Key("create-prefix"),
            Some(LauncherState::GameUpdateAvailable(_)) => Caption::Key("update"),
            Some(LauncherState::GameOutdated(_)) => Caption::Key("update"),
            Some(LauncherState::GameNotInstalled(_)) => Caption::Key("download"),
            None => Caption::Literal("..."),
        }
    }

    /// The main button can be pressed when the buttons are enabled and the
    /// state allows it.
    pub fn main_button_sensitive(&self) -> (sensitive: bool)
        ensures
            sensitive == (!self.disabled_buttons && spec_state_allows_action(self.state)),
    {
        if self.disabled_buttons {
            return false;
        }
        match &self.state {
            None => false,
            Some(LauncherState::GameOutdated(_)) => false,
            Some(LauncherState::MainPatchAvailable { status: PatchStatus::NotAvailable, .. }) => false,
            Some(LauncherState::MainPatchAvailable { status: PatchStatus::Outdated, .. }) => false,
            Some(_) => true,
        }
    }

    /// Style class of the main button.
    pub fn main_button_css_class(&self) -> (class: Option<&'static str>)
        ensures
            match spec_main_button_css(self.state) {
                Some(c) => class matches Some(k) && k@ == c,
                None => class is None,
            },
    {
        match &self.state {
            None => None,
            Some(LauncherState::GameOutdated(_)) => Some("warning"),
            Some(LauncherState::MainPatchAvailable { status: PatchStatus::NotAvailable, .. }) => Some("error"),
            Some(LauncherState::MainPatchAvailable { status: PatchStatus::Outdated, .. }) => Some("error"),
            Some(LauncherState::MainPatchAvailable { status: PatchStatus::Testing, .. }) => Some("warning"),
            Some(_) => Some("suggested-action"),
        }
    }

    /// Tooltip of the main button, as an i18n key; `None` for no text.
    pub fn main_button_tooltip(&self) -> (tooltip: Option<&'static str>)
        ensures
            match spec_main_button_tooltip(self.state) {
                Some(c) => tooltip matches Some(k) && k@ == c,
                None => tooltip is None,
            },
    {
        match &self.state {
            Some(LauncherState::GameOutdated(_)) => Some("main-window--version-outdated-tooltip"),
            Some(LauncherState::MainPatchAvailable { status: PatchStatus::NotAvailable, .. }) => Some(
                "main-window--patch-unavailable-tooltip",
            ),
            Some(LauncherState::MainPatchAvailable { status: PatchStatus::Outdated, .. }) => Some(
                "main-window--patch-outdated-tooltip",
            ),
            _ => None,
        }
    }

    /// The preferences button can be pressed while the buttons are enabled.
    pub fn preferences_sensitive(&self) -> (sensitive: bool)
        ensures
            sensitive == !self.disabled_buttons,
    {
        !self.disabled_buttons
    }
}

/// `state` holds a patch that cannot be applied: missing or outdated.
pub open spec fn blocked_patch<D, P>(state: LauncherState<D, P>) -> bool {
    state matches LauncherState::MainPatchAvailable { status, .. } && (status is NotAvailable || status is Outdated)
}

/// The main button's label names the work that pressing it starts: every
/// patch state says "apply-patch", a launchable game "launch", a missing wine or
/// prefix "download-wine" and "create-prefix", a game to update (or too old to)
/// "update", a missing game "download"; while the state is unknown there is no
/// key.
pub proof fn lemma_main_button_label_names_its_work<D, P>(state: Option<LauncherState<D, P>>)
    ensures
        state is None <==> spec_main_button_key(state) is None,
        state matches Some(s) && s is MainPatchAvailable ==> spec_main_button_key(state) == Some("apply-patch"@),
        state matches Some(s) && !(s is MainPatchAvailable) && s.spec_action() == Some(Action::Launch)
            ==> spec_main_button_key(state) == Some("launch"@),
        state matches Some(s) && s.spec_action() == Some(Action::ApplyPatch)
            ==> spec_main_button_key(state) == Some("apply-patch"@),
        state matches Some(s) && s.spec_action() == Some(Action::DownloadWine)
            ==> spec_main_button_key(state) == Some("download-wine"@),
        state matches Some(s) && s.spec_action() == Some(Action::CreatePrefix)
            ==> spec_main_button_key(state) == Some("create-prefix"@),
        state matches Some(s) && (s is GameUpdateAvailable || s is GameOutdated)
            ==> spec_main_button_key(state) == Some("update"@),
        state matches Some(s) && s is GameNotInstalled ==> spec_main_button_key(state) == Some("download"@),
{
}

/// The main button can be pressed exactly when the buttons are enabled, the
/// state is known, the state has work for the button, and that work is not a
/// patch that cannot be applied. In particular a launchable game, a game with a
/// predownload on offer, and every install or download step can be started.
pub proof fn lemma_main_button_enabled_when_it_has_work<D, P>(app: App<D, P>)
    ensures
        (!app.disabled_buttons && spec_state_allows_action(app.state)) <==> (!app.disabled_buttons && (
            app.state matches Some(s) && s.spec_action() is Some && !blocked_patch(s))),
        app.state matches Some(s) && s.spec_action() is Some && !blocked_patch(s)
            ==> spec_state_allows_action(app.state),
        app.state matches Some(s) && (s is Launch || s is PredownloadAvailable)
            ==> spec_state_allows_action(app.state),
        app.disabled_buttons ==> !(!app.disabled_buttons && spec_state_allows_action(app.state)),
{
    if let Some(st) = app.state {
        crate::launcher::lemma_action_of_each_state(st);
    }
}

/// The main button's style: the suggested action whenever it can start its
/// work, except a patch still in testing, which is a warning; a warning for a
/// game too old to update and an error for a patch that cannot be applied; no
/// class while the state is unknown.
pub proof fn lemma_main_button_style<D, P>(state: Option<LauncherState<D, P>>)
    ensures
        state is None <==> spec_main_button_css(state) is None,
        spec_state_allows_action(state) && !(state matches Some(LauncherState::MainPatchAvailable { status: PatchStatus::Testing, .. }))
            ==> spec_main_button_css(state) == Some("suggested-action"@),
        state matches Some(LauncherState::MainPatchAvailable { status: PatchStatus::Testing, .. })
            ==> spec_main_button_css(state) == Some("warning"@),
        state matches Some(s) && s is GameOutdated ==> spec_main_button_css(state) == Some("warning"@),
        state matches Some(s) && blocked_patch(s) ==> spec_main_button_css(state) == Some("error"@),
{
}

/// The main button explains itself only when it cannot be pressed although the
/// state is known: why the game or the patch blocks it.
pub proof fn lemma_main_button_tooltip_explains_block<D, P>(state: Option<LauncherState<D, P>>)
    ensures
        spec_main_button_tooltip(state) is Some <==> (state is Some && !spec_state_allows_action(state)),
        state matches Some(s) && s is GameOutdated
            ==> spec_main_button_tooltip(state) == Some("main-window--version-outdated-tooltip"@),
        state matches Some(LauncherState::MainPatchAvailable { status: PatchStatus::NotAvailable, .. })
            ==> spec_main_button_tooltip(state) == Some("main-window--patch-unavailable-tooltip"@),
        state matches Some(LauncherState::MainPatchAvailable { status: PatchStatus::Outdated, .. })
            ==> spec_main_button_tooltip(state) == Some("main-window--patch-outdated-tooltip"@),
{
}

/// The style-dependent sizes and texts: the first value is the modern style's,
/// the second the classic one's; the window always has the "background" and
/// "csd" classes first, "devel" exactly in a debug build, and "classic-style"
/// exactly in the classic style once loading is over.
pub proof fn lemma_style_rules(style: LauncherStyle, loading: bool, app_debug: bool, modern: int, classic: int)
    ensures
        by_style(LauncherStyle::Modern, modern, classic) == modern,
        by_style(LauncherStyle::Classic, modern, classic) == classic,
        app_title() == "The Honkers Railway Launcher"@,
        ({
            let classes = spec_window_css_classes(style, loading, app_debug);
            &&& classes.len() >= 2
            &&& classes[0] == "background"@
            &&& classes[1] == "csd"@
            &&& classes.len() == 2 + (if app_debug { 1int } else { 0 }) + (if style is Classic && !loading { 1int } else { 0 })
            &&& app_debug ==> classes[2] == "devel"@
            &&& (style is Classic && !loading) ==> classes.last() == "classic-style"@
        }),
{
}

/// A caption is a key caption of `key` exactly when it is the key `key`.
pub proof fn lemma_caption_is_key(c: Caption, key: Seq<char>)
    ensures
        caption_is_key(c, key) <==> (c matches Caption::Key(k) && k@ == key),
{
}

} // verus!
