//! What the launcher knows about the installed game, modelled with plain values.
//!
//! The payloads that only get handed on (a version diff, a patch description)
//! stay opaque: they are the type parameters `D` (diff) and `P` (patch).

use vstd::prelude::*;

verus! {

/// Visual style of the main window.
#[derive(Clone, Copy, Debug)]
pub enum LauncherStyle {
    Modern,
    Classic,
}

/// Availability of the main game patch.
#[derive(Clone, Copy, Debug)]
pub enum PatchStatus {
    NotAvailable,
    Outdated,
    Testing,
    Available,
}

/// What has to happen before the game can be launched.
///
/// `D` is the version diff that a download works on, `P` the patch that
/// applying works on; the launcher only carries them.
#[derive(Debug)]
pub enum LauncherState<D, P> {
    Launch,
    /// An update can be downloaded ahead of its release.
    PredownloadAvailable {
        /// The version the update leads to, as shown to the user.
        version: String,
        /// Download and unpacked size of the update, when known.
        size: Option<(u64, u64)>,
        diff: D,
    },
    MainPatchAvailable {
        status: PatchStatus,
        patch: P,
    },
    WineNotInstalled,
    PrefixNotExists,
    GameUpdateAvailable(D),
    GameOutdated(D),
    GameNotInstalled(D),
}

/// The part of the launcher state that is being computed right now.
#[derive(Clone, Copy, Debug)]
pub enum StateUpdating {
    Game,
    Patch,
}

} // verus!

verus! {

/// The work that the main button starts for a launcher state.
#[derive(Clone, Copy, Debug)]
pub enum Action {
    Launch,
    ApplyPatch,
    DownloadWine,
    CreatePrefix,
    DownloadDiff,
}

impl<D, P> LauncherState<D, P> {
    /// The main button's work: launching where the game can run (also when the
    /// patch is not available at all, or an update can merely be predownloaded),
    /// otherwise the step that is missing; nothing while the installed version is
    /// too old to be updated.
    pub open spec fn spec_action(&self) -> Option<Action> {
        match self {
            LauncherState::MainPatchAvailable { status: PatchStatus::NotAvailable, .. } => Some(Action::Launch),
            LauncherState::PredownloadAvailable { .. } => Some(Action::Launch),
            LauncherState::Launch => Some(Action::Launch),
            LauncherState::MainPatchAvailable { .. } => Some(Action::ApplyPatch),
            LauncherState::WineNotInstalled => Some(Action::DownloadWine),
            LauncherState::PrefixNotExists => Some(Action::CreatePrefix),
            LauncherState::GameUpdateAvailable(_) => Some(Action::DownloadDiff),
            LauncherState::GameNotInstalled(_) => Some(Action::DownloadDiff),
            LauncherState::GameOutdated(_) => None,
        }
    }

    /// The work of the main button for this state; see `spec_action`.
    pub fn action(&self) -> (a: Option<Action>)
        ensures
            a == self.spec_action(),
    {
        match self {
            LauncherState::MainPatchAvailable { status: PatchStatus::NotAvailable, .. } => Some(Action::Launch),
            LauncherState::PredownloadAvailable { .. } => Some(Action::Launch),
            LauncherState::Launch => Some(Action::Launch),
            LauncherState::MainPatchAvailable { .. } => Some(Action::ApplyPatch),
            LauncherState::WineNotInstalled => Some(Action::DownloadWine),
            LauncherState::PrefixNotExists => Some(Action::CreatePrefix),
            LauncherState::GameUpdateAvailable(_) => Some(Action::DownloadDiff),
            LauncherState::GameNotInstalled(_) => Some(Action::DownloadDiff),
            LauncherState::GameOutdated(_) => None,
        }
    }
}

/// What the main button does in each launcher state: the patch is applied
/// whenever there is one to apply (any status but "not available"); the game is
/// launched when it is ready, when only a predownload is offered, or when no
/// patch exists at all; a missing wine or prefix is installed; a missing or old
/// game is downloaded; a game too old to update gets nothing.
pub proof fn lemma_action_of_each_state<D, P>(state: LauncherState<D, P>)
    ensures
        state matches LauncherState::MainPatchAvailable { status, .. } ==> (
            status is NotAvailable <==> state.spec_action() == Some(Action::Launch)),
        state matches LauncherState::MainPatchAvailable { status, .. } ==> (
            !(status is NotAvailable) <==> state.spec_action() == Some(Action::ApplyPatch)),
        state is Launch ==> state.spec_action() == Some(Action::Launch),
        state is PredownloadAvailable ==> state.spec_action() == Some(Action::Launch),
        state is WineNotInstalled ==> state.spec_action() == Some(Action::DownloadWine),
        state is PrefixNotExists ==> state.spec_action() == Some(Action::CreatePrefix),
        state is GameUpdateAvailable ==> state.spec_action() == Some(Action::DownloadDiff),
        state is GameNotInstalled ==> state.spec_action() == Some(Action::DownloadDiff),
        state is GameOutdated <==> state.spec_action() is None,
        state.spec_action() == Some(Action::ApplyPatch) ==> state is MainPatchAvailable,
        state.spec_action() == Some(Action::DownloadDiff) ==> (state is GameUpdateAvailable || state is GameNotInstalled),
        state.spec_action() == Some(Action::DownloadWine) ==> state is WineNotInstalled,
        state.spec_action() == Some(Action::CreatePrefix) ==> state is PrefixNotExists,
{
}

} // verus!
