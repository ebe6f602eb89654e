//! What the handlers ask the host to do.
use crate::message::{ErrorText, FailedAction};
use crate::names::NameSet;
use crate::operation::{OperationKind, PendingOperationAction};
use crate::request::{AuthChallenge, AuthSecret, NetworkRequest};
use crate::screen::Focus;
use git2::Oid;
use vstd::prelude::*;

verus! {

/// How far a reset to a commit reaches.
#[derive(Clone, Copy, Debug, PartialEq, Eq, Structural)]
pub enum ResetMode {
    /// The index as well.
    Mixed,
    /// The index and the work tree.
    Hard,
}

/// Where a submodule was picked for staging.
#[derive(Clone, Copy, Debug, PartialEq, Eq, Structural)]
pub enum StagedFrom {
    Status,
    SubmodulePane,
}

/// Where a branch was picked for checkout.
#[derive(Clone, Copy, Debug, PartialEq)]
pub enum CheckoutOrigin {
    /// The branch pane; the branch's row in the graph, where that is known.
    Pane { graph_index: Option<usize> },
    Graph,
}

/// A git command. When it is done the host reports to
/// [`App::command_finished`](crate::app::App::command_finished).
#[derive(Debug, PartialEq)]
pub enum GitCommand<S = String> {
    DropStash { oid: Oid },
    PopStash { oid: Oid },
    Stash,
    CheckoutHead { oid: Oid },
    Reset { oid: Oid, mode: ResetMode },
    ResetFile { path: S },
    StageAll,
    StageFile { path: S },
    StageSubmodule { name: S, from: StagedFrom },
    UnstageAll,
    UnstageFile { path: S },
    UnstageSubmodule { name: S, from: StagedFrom },
    DeleteBranch { branch: S },
    DeleteTag { tag: S },
}

impl View for GitCommand<String> {
    type V = GitCommand<Seq<char>>;

    open spec fn view(&self) -> GitCommand<Seq<char>> {
        match self {
            GitCommand::DropStash { oid } => GitCommand::DropStash { oid: *oid },
            GitCommand::PopStash { oid } => GitCommand::PopStash { oid: *oid },
            GitCommand::Stash => GitCommand::Stash,
            GitCommand::CheckoutHead { oid } => GitCommand::CheckoutHead { oid: *oid },
            GitCommand::Reset { oid, mode } => GitCommand::Reset { oid: *oid, mode: *mode },
            GitCommand::ResetFile { path } => GitCommand::ResetFile { path: path@ },
            GitCommand::StageAll => GitCommand::StageAll,
            GitCommand::StageFile { path } => GitCommand::StageFile { path: path@ },
            GitCommand::StageSubmodule { name, from } => GitCommand::StageSubmodule {
                name: name@,
                from: *from,
            },
            GitCommand::UnstageAll => GitCommand::UnstageAll,
            GitCommand::UnstageFile { path } => GitCommand::UnstageFile { path: path@ },
            GitCommand::UnstageSubmodule { name, from } => GitCommand::UnstageSubmodule {
                name: name@,
                from: *from,
            },
            GitCommand::DeleteBranch { branch } => GitCommand::DeleteBranch { branch: branch@ },
            GitCommand::DeleteTag { tag } => GitCommand::DeleteTag { tag: tag@ },
        }
    }
}

impl<S> GitCommand<S> {
    /// What to call the command when it fails.
    pub open spec fn action(self) -> FailedAction {
        match self {
            GitCommand::DropStash { .. } => FailedAction::DropStash,
            GitCommand::PopStash { .. } => FailedAction::PopStash,
            GitCommand::Stash => FailedAction::Stash,
            GitCommand::CheckoutHead { .. } => FailedAction::Checkout,
            GitCommand::Reset { mode, .. } => match mode {
                ResetMode::Hard => FailedAction::HardReset,
                ResetMode::Mixed => FailedAction::MixedReset,
            },
            GitCommand::ResetFile { .. } => FailedAction::ResetFile,
            GitCommand::StageAll => FailedAction::StageAll,
            GitCommand::StageFile { .. } => FailedAction::StageFile,
            GitCommand::StageSubmodule { .. } => FailedAction::StageSubmodule,
            GitCommand::UnstageAll => FailedAction::UnstageAll,
            GitCommand::UnstageFile { .. } => FailedAction::UnstageFile,
            GitCommand::UnstageSubmodule { .. } => FailedAction::UnstageSubmodule,
            GitCommand::DeleteBranch { .. } => FailedAction::DeleteBranch,
            GitCommand::DeleteTag { .. } => FailedAction::DeleteTag,
        }
    }

    /// What to call the command when it fails.
    pub fn failed_action(&self) -> (action: FailedAction)
        ensures
            action == self.action(),
    {
        match self {
            GitCommand::DropStash { .. } => FailedAction::DropStash,
            GitCommand::PopStash { .. } => FailedAction::PopStash,
            GitCommand::Stash => FailedAction::Stash,
            GitCommand::CheckoutHead { .. } => FailedAction::Checkout,
            GitCommand::Reset { mode, .. } => match mode {
                ResetMode::Hard => FailedAction::HardReset,
                ResetMode::Mixed => FailedAction::MixedReset,
            },
            GitCommand::ResetFile { .. } => FailedAction::ResetFile,
            GitCommand::StageAll => FailedAction::StageAll,
            GitCommand::StageFile { .. } => FailedAction::StageFile,
            GitCommand::StageSubmodule { .. } => FailedAction::StageSubmodule,
            GitCommand::UnstageAll => FailedAction::UnstageAll,
            GitCommand::UnstageFile { .. } => FailedAction::UnstageFile,
            GitCommand::UnstageSubmodule { .. } => FailedAction::UnstageSubmodule,
            GitCommand::DeleteBranch { .. } => FailedAction::DeleteBranch,
            GitCommand::DeleteTag { .. } => FailedAction::DeleteTag,
        }
    }

    /// The commands on stashes run on the repository opened anew; the others on the
    /// one that is open.
    pub open spec fn on_fresh_repository(self) -> bool {
        self is DropStash || self is PopStash || self is Stash
    }

    /// Whether the repository is to be opened anew for the command. If that fails the
    /// host reports to
    /// [`App::stash_repository_failed`](crate::app::App::stash_repository_failed).
    pub fn needs_fresh_repository(&self) -> (fresh: bool)
        ensures
            fresh == self.on_fresh_repository(),
    {
        match self {
            GitCommand::DropStash { .. } | GitCommand::PopStash { .. } | GitCommand::Stash => true,
            _ => false,
        }
    }
}

/// A step of a longer operation. Its outcome goes to the handler for its kind,
/// such as [`App::handle_rebase_result`](crate::app::App::handle_rebase_result).
#[derive(Clone, Copy, Debug, PartialEq)]
pub enum OperationStep {
    StartRebase { oid: Oid },
    StartMerge { oid: Oid },
    Continue { kind: OperationKind },
    Abort { kind: OperationKind },
}

impl OperationStep {
    /// The operation it is a step of.
    pub open spec fn operation(self) -> OperationKind {
        match self {
            OperationStep::StartRebase { .. } => OperationKind::Rebase,
            OperationStep::StartMerge { .. } => OperationKind::Merge,
            OperationStep::Continue { kind } => kind,
            OperationStep::Abort { kind } => kind,
        }
    }

    /// Which handler the outcome of the step goes to.
    pub fn kind(self) -> (kind: OperationKind)
        ensures
            kind == self.operation(),
    {
        match self {
            OperationStep::StartRebase { .. } => OperationKind::Rebase,
            OperationStep::StartMerge { .. } => OperationKind::Merge,
            OperationStep::Continue { kind } => kind,
            OperationStep::Abort { kind } => kind,
        }
    }
}

/// Something for the host to do. Effects are carried out in the order in which
/// they were queued.
///
/// `S` is the text type and `N` the type of name sets; contracts use `Seq<char>`
/// and sets of those.
#[derive(Debug, PartialEq)]
pub enum Effect<S = String, N = NameSet> {
    ShowError(ErrorText<S>),
    /// Read the repository and all panes anew.
    Reload,
    /// Put the focus there once everything queued before is done.
    Focus(Focus),
    /// Remember the hidden branches of the repository at `path`.
    SaveBranchVisibility { path: S, hidden: N },
    /// Start a background thread for the request, with the stored credentials.
    SpawnNetwork(NetworkRequest<S>),
    /// Forget stored credentials that a remote refused.
    EvictCredentials { rejected: Vec<String> },
    StoreCredentials { challenge: AuthChallenge<S>, secret: AuthSecret<S> },
    Run(GitCommand<S>),
    /// Check a branch out. The host reports to
    /// [`App::branch_checkout_finished`](crate::app::App::branch_checkout_finished).
    CheckoutBranch { alias: u32, branch: S, origin: CheckoutOrigin },
    /// Open the repository anew and report to
    /// [`App::operation_repository_opened`](crate::app::App::operation_repository_opened).
    OpenForOperation(PendingOperationAction),
    Operate(OperationStep),
}

/// Effects as contracts speak of them.
pub type EffectView = Effect<Seq<char>, Set<Seq<char>>>;

impl View for Effect<String, NameSet> {
    type V = EffectView;

    open spec fn view(&self) -> EffectView {
        match self {
            Effect::ShowError(text) => Effect::ShowError(text@),
            Effect::Reload => Effect::Reload,
            Effect::Focus(focus) => Effect::Focus(*focus),
            Effect::SaveBranchVisibility { path, hidden } => Effect::SaveBranchVisibility {
                path: path@,
                hidden: hidden@,
            },
            Effect::SpawnNetwork(request) => Effect::SpawnNetwork(request@),
            Effect::EvictCredentials { rejected } => Effect::EvictCredentials {
                rejected: *rejected,
            },
            Effect::StoreCredentials { challenge, secret } => Effect::StoreCredentials {
                challenge: challenge@,
                secret: secret@,
            },
            Effect::Run(command) => Effect::Run(command@),
            Effect::CheckoutBranch { alias, branch, origin } => Effect::CheckoutBranch {
                alias: *alias,
                branch: branch@,
                origin: *origin,
            },
            Effect::OpenForOperation(action) => Effect::OpenForOperation(*action),
            Effect::Operate(step) => Effect::Operate(*step),
        }
    }
}

} // verus!
