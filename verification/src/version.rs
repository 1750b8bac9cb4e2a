//! A row of a component list (a wine or dxvk build): what it shows and how it
//! reacts to the list's "recommended only" switch.

use vstd::prelude::*;

verus! {

/// Installation state of one component version.
#[derive(Clone, Copy, Debug)]
pub enum VersionState {
    Downloaded,
    Downloading(u64, u64),
    Unpacking(u64, u64),
    NotDownloaded,
}

/// One entry of a components index, as the row is created from it.
pub struct ComponentsListVersion {
    pub name: String,
    pub title: String,
    pub uri: String,
    pub recommended: bool,
}

/// One component version row.
pub struct ComponentVersion {
    pub name: String,
    pub title: String,
    pub recommended: bool,

    pub download_uri: String,
    /// Folder that holds the installed versions of this component.
    pub download_folder: String,

    pub show_recommended_only: bool,
    pub state: VersionState,
}

/// Input of a component version row.
#[derive(Clone, Copy, Debug)]
pub enum AppMsg {
    ShowRecommendedOnly(bool),
}

/// Icon of the row's button when the version is not on disk.
pub open spec fn save_icon() -> Seq<char> {
    "document-save-symbolic"@
}

/// Icon of the row's button in every other state.
pub open spec fn trash_icon() -> Seq<char> {
    "user-trash-symbolic"@
}

impl ComponentVersion {
    /// Creates the row for `init`, whose versions are kept in `download_folder`.
    /// `installed` tells whether `download_folder` holds a folder named after the
    /// version; the row starts in "recommended only" mode.
    pub fn init(init: ComponentsListVersion, download_folder: String, installed: bool) -> (row: Self)
        ensures
            row.name == init.name,
            row.title == init.title,
            row.recommended == init.recommended,
            row.download_uri == init.uri,
            row.download_folder == download_folder,
            row.show_recommended_only,
            row.state == (if installed {
                VersionState::Downloaded
            } else {
                VersionState::NotDownloaded
            }),
    {
        ComponentVersion {
            name: init.name,
            title: init.title,
            recommended: init.recommended,
            download_uri: init.uri,
            download_folder,
            show_recommended_only: true,
            state: if installed {
                VersionState::Downloaded
            } else {
                VersionState::NotDownloaded
            },
        }
    }

    /// The row after `msg`: the switch only sets `show_recommended_only`.
    pub open spec fn updated(self, msg: AppMsg) -> ComponentVersion {
        match msg {
            AppMsg::ShowRecommendedOnly(on) => ComponentVersion { show_recommended_only: on, ..self },
        }
    }

    /// Whether the row is shown: always, unless the list shows recommended
    /// versions only and this one is not.
    pub open spec fn shown(self) -> bool {
        !self.show_recommended_only || self.recommended
    }

    /// Applies one input to the row.
    pub fn update(&mut self, msg: AppMsg)
        ensures
            *final(self) == old(self).updated(msg),
    {
        match msg {
            AppMsg::ShowRecommendedOnly(on) => self.show_recommended_only = on,
        }
    }

    /// Whether the row is shown; see `shown`.
    pub fn is_visible(&self) -> (visible: bool)
        ensures
            visible == self.shown(),
    {
        !self.show_recommended_only || self.recommended
    }

    /// Icon of the row's button: a save icon while the version is not
    /// downloaded, a trash icon otherwise.
    pub fn button_icon(&self) -> (icon: &'static str)
        ensures
            icon@ == (if self.state is NotDownloaded { save_icon() } else { trash_icon() }),
    {
        match self.state {
            VersionState::NotDownloaded => "document-save-symbolic",
            _ => "user-trash-symbolic",
        }
    }
}

/// The "recommended only" switch only hides what is not recommended: a
/// recommended version stays shown whatever the switch says, and switching it
/// off shows every version.
pub proof fn lemma_recommended_only_filters(row: ComponentVersion, msg: AppMsg)
    ensures
        row.recommended ==> row.updated(msg).shown(),
        row.updated(AppMsg::ShowRecommendedOnly(false)).shown(),
        row.updated(AppMsg::ShowRecommendedOnly(true)).shown() == row.recommended,
        row.updated(AppMsg::ShowRecommendedOnly(true)).show_recommended_only,
        !row.updated(AppMsg::ShowRecommendedOnly(false)).show_recommended_only,
        row.updated(msg).name == row.name && row.updated(msg).title == row.title,
        row.updated(msg).recommended == row.recommended && row.updated(msg).download_uri == row.download_uri,
        row.updated(msg).download_folder == row.download_folder && row.updated(msg).state == row.state,
{
}

/// The row's button offers to save a version that is not on disk and to
/// remove one that is (downloaded, downloading or unpacking).
pub proof fn lemma_button_icons()
    ensures
        save_icon() == "document-save-symbolic"@,
        trash_icon() == "user-trash-symbolic"@,
{
}

} // verus!
