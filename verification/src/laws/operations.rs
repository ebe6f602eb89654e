//! Rebases, merges, cherry-picks and reverts, from the key press to the outcome.
use crate::app::AppView;
use crate::effect::{Effect, OperationStep};
use crate::laws::{asks_for, refuses};
use crate::message::{ErrorText, FailedAction};
use crate::operation::{
    CherrypickOutcome, MergeOutcome, OperationKind, OperationMessage, PendingOperationAction,
    RebaseOutcome, RevertOutcome,
};
use crate::repository::{RepoSnapshot, RepositoryState};
use crate::screen::{Focus, Viewport};
use git2::Oid;
use vstd::prelude::*;

verus! {

/// A repository in this state is in the middle of an operation of this kind.
pub open spec fn amid(state: RepositoryState, kind: OperationKind) -> bool {
    ||| kind == OperationKind::Merge && state == RepositoryState::Merge
    ||| kind == OperationKind::Revert && state == RepositoryState::Revert
    ||| kind == OperationKind::Revert && state == RepositoryState::RevertSequence
    ||| kind == OperationKind::Cherrypick && state == RepositoryState::CherryPick
    ||| kind == OperationKind::Cherrypick && state == RepositoryState::CherryPickSequence
    ||| kind == OperationKind::Rebase && state == RepositoryState::Rebase
    ||| kind == OperationKind::Rebase && state == RepositoryState::RebaseInteractive
    ||| kind == OperationKind::Rebase && state == RepositoryState::RebaseMerge
    ||| kind == OperationKind::Rebase && state == RepositoryState::ApplyMailboxOrRebase
}

/// The repository is in the middle of an operation of this kind.
pub open spec fn in_progress(repo: RepoSnapshot, kind: OperationKind) -> bool {
    amid(repo.state, kind)
}

/// The operation of a state is the one it is in the middle of.
pub proof fn law_state_tells_the_operation(state: RepositoryState, kind: OperationKind)
    ensures
        state.operation() == Some(kind) <==> amid(state, kind),
        state.operation() is None <==> forall|other: OperationKind| !amid(state, other),
{
    if state.operation() is Some {
        assert(amid(state, state.operation()->0));
    }
}

pub(crate) proof fn lemma_in_progress(repo: RepoSnapshot)
    ensures
        forall|kind: OperationKind|
            repo.state.operation() == Some(kind) <==> #[trigger] in_progress(repo, kind),
        (forall|kind: OperationKind| !#[trigger] in_progress(repo, kind))
            ==> repo.state.operation() is None,
{
    assert forall|kind: OperationKind|
        repo.state.operation() == Some(kind) <==> #[trigger] in_progress(repo, kind) by {
        law_state_tells_the_operation(repo.state, kind);
    }
    if repo.state.operation() is Some {
        assert(in_progress(repo, repo.state.operation()->0));
    }
}

/// The progress modal is up for a step of an operation, which is pending; nothing else
/// changed.
pub open spec fn resumes(
    before: AppView,
    after: AppView,
    action: PendingOperationAction,
    kind: OperationKind,
    message: OperationMessage<Seq<char>>,
) -> bool {
    after == AppView {
        focus: Focus::ModalOperationProgress,
        pending_operation_action: Some(action),
        modal_operation_kind: kind,
        modal_operation_message: message,
        ..before
    }
}

/// The viewport of the graph or of the splash screen has the focus.
pub open spec fn viewport_is_open(state: AppView) -> bool {
    state.focus == Focus::Viewport && (state.viewport == Viewport::Graph || state.viewport
        == Viewport::Splash)
}

/// One of the four operations has been started and not finished.
pub open spec fn unfinished(repo: RepoSnapshot) -> bool {
    ||| repo.merge_in_progress
    ||| repo.revert_in_progress
    ||| repo.cherrypick_in_progress
    ||| repo.rebase_in_progress
}

/// With nothing unfinished, a rebase and a merge get pending for the selected commit.
pub proof fn law_operation_gets_pending_for_the_selected_commit(
    state: AppView,
    repo: RepoSnapshot,
    oid: Oid,
)
    requires
        state.repo == Some(repo),
        !unfinished(repo),
        state.viewport is Graph,
        state.focus is Viewport,
        state.graph_selected != 0,
        state.panes.cursor.oid == Some(oid),
    ensures
        resumes(
            state,
            state.after_rebase(),
            PendingOperationAction::Start { kind: OperationKind::Rebase, oid },
            OperationKind::Rebase,
            OperationMessage::RebasingSelectedCommit,
        ),
        resumes(
            state,
            state.after_merge(),
            PendingOperationAction::Start { kind: OperationKind::Merge, oid },
            OperationKind::Merge,
            OperationMessage::MergingSelectedCommit,
        ),
{
}

/// What is in progress goes on or is given up as asked, and also goes on when a rebase or a
/// merge is asked for while something is unfinished.
pub proof fn law_operation_in_progress_goes_on(
    state: AppView,
    repo: RepoSnapshot,
    kind: OperationKind,
)
    requires
        state.repo == Some(repo),
        in_progress(repo, kind),
        viewport_is_open(state),
    ensures
        ({
            let going_on = OperationMessage::Continuing { kind };
            let action = PendingOperationAction::Continue;
            &&& resumes(state, state.after_continue_operation(), action, kind, going_on)
            &&& unfinished(repo) ==> resumes(state, state.after_rebase(), action, kind, going_on)
            &&& unfinished(repo) ==> resumes(state, state.after_merge(), action, kind, going_on)
        }),
        resumes(
            state,
            state.after_abort_operation(),
            PendingOperationAction::Abort,
            kind,
            OperationMessage::Aborting { kind },
        ),
{
    lemma_in_progress(repo);
}

/// Without a repository or away from the viewport nothing gets pending; nor does anything go
/// on that is not in progress, or start without a selected commit in the graph.
pub proof fn law_operation_needs_its_object(state: AppView)
    ensures
        state.repo is None || !viewport_is_open(state) ==> {
            &&& state.after_rebase() == state
            &&& state.after_merge() == state
            &&& state.after_continue_operation() == state
            &&& state.after_abort_operation() == state
        },
        state.repo matches Some(repo) && (forall|kind: OperationKind| !in_progress(repo, kind))
            ==> {
            &&& state.after_continue_operation() == state
            &&& state.after_abort_operation() == state
            &&& unfinished(state.repo->0) ==> state.after_rebase() == state && state.after_merge()
                == state
        },
        state.repo matches Some(repo) && !unfinished(repo) && (!(state.viewport is Graph)
            || state.graph_selected == 0 || state.panes.cursor.oid is None) ==> {
            &&& state.after_rebase() == state
            &&& state.after_merge() == state
        },
{
    if let Some(repo) = state.repo {
        lemma_in_progress(repo);
    }
}

/// A pending step is taken up and the repository opened for it; without a repository that
/// is reported, and without a step nothing happens.
pub proof fn law_pending_step_is_taken_up(state: AppView)
    ensures
        state.pending_operation_action is None ==> state.pending_operation_run() == state,
        state.pending_operation_action matches Some(action) && state.repo is Some ==> asks_for(
            AppView { pending_operation_action: None, ..state },
            state.pending_operation_run(),
            Effect::OpenForOperation(state.pending_operation_action->0),
        ),
        state.pending_operation_action is Some && state.repo is None ==> refuses(
            AppView { pending_operation_action: None, focus: Focus::Viewport, ..state },
            state.pending_operation_run(),
            ErrorText::OperationNoRepository,
        ),
{
}

/// The repository that was opened decides what is done: rebases and merges start with their
/// commit, cherry-picks and reverts are refused for want of a message, and continuing and
/// aborting go to the operation that is in progress there, or are refused.
pub proof fn law_opened_repository_decides(
    state: AppView,
    opened: RepositoryState,
    oid: Oid,
    kind: OperationKind,
    cause: String,
    action: PendingOperationAction,
)
    ensures
        ({
            let start = |kind: OperationKind| PendingOperationAction::Start { kind, oid };
            let over_viewport = AppView { focus: Focus::Viewport, ..state };
            &&& asks_for(
                state,
                state.operation_opened(start(OperationKind::Rebase), Ok(opened)),
                Effect::Operate(OperationStep::StartRebase { oid }),
            )
            &&& asks_for(
                state,
                state.operation_opened(start(OperationKind::Merge), Ok(opened)),
                Effect::Operate(OperationStep::StartMerge { oid }),
            )
            &&& refuses(
                over_viewport,
                state.operation_opened(start(OperationKind::Cherrypick), Ok(opened)),
                ErrorText::CherrypickNoMessage,
            )
            &&& refuses(
                over_viewport,
                state.operation_opened(start(OperationKind::Revert), Ok(opened)),
                ErrorText::RevertNoMessage,
            )
            &&& amid(opened, kind) ==> asks_for(
                state,
                state.operation_opened(PendingOperationAction::Continue, Ok(opened)),
                Effect::Operate(OperationStep::Continue { kind }),
            )
            &&& amid(opened, kind) ==> asks_for(
                state,
                state.operation_opened(PendingOperationAction::Abort, Ok(opened)),
                Effect::Operate(OperationStep::Abort { kind }),
            )
            &&& (forall|other: OperationKind| !amid(opened, other)) ==> refuses(
                over_viewport,
                state.operation_opened(PendingOperationAction::Continue, Ok(opened)),
                ErrorText::ContinueNoOperation,
            )
            &&& (forall|other: OperationKind| !amid(opened, other)) ==> refuses(
                over_viewport,
                state.operation_opened(PendingOperationAction::Abort, Ok(opened)),
                ErrorText::AbortNoOperation,
            )
            &&& refuses(
                over_viewport,
                state.operation_opened(action, Err(cause)),
                ErrorText::Failed { action: FailedAction::OpenRepository, cause: cause@ },
            )
        }),
{
    law_state_tells_the_operation(opened, kind);
}

/// An outcome is on show: in the given modal, with the given text, and everything is read
/// anew; nothing else changed.
pub open spec fn shows(
    before: AppView,
    after: AppView,
    kind: OperationKind,
    focus: Focus,
    message: OperationMessage<Seq<char>>,
) -> bool {
    after == AppView {
        focus,
        modal_operation_kind: kind,
        modal_operation_message: message,
        effects: before.effects.push(Effect::Reload),
        ..before
    }
}

/// A failure is reported over the viewport, and then everything is read anew; nothing else
/// changed.
pub open spec fn fails(
    before: AppView,
    after: AppView,
    kind: OperationKind,
    action: FailedAction,
    cause: Seq<char>,
) -> bool {
    after == AppView {
        focus: Focus::Viewport,
        modal_operation_kind: kind,
        modal_operation_message: OperationMessage::Empty,
        effects: before.effects.push(
            Effect::ShowError(ErrorText::Failed { action, cause }),
        ).push(Effect::Reload),
        ..before
    }
}

/// A rebase shows how many commits it applied, that it stopped, that it was given up, or why
/// it failed.
pub proof fn law_rebase_shows_its_outcome(state: AppView, applied: usize, cause: String)
    ensures
        ({
            let kind = OperationKind::Rebase;
            let after = |outcome: RebaseOutcome| state.rebase_ended(Ok(outcome));
            let success = Focus::ModalOperationSuccess;
            &&& shows(
                state,
                after(RebaseOutcome::Completed { applied }),
                kind,
                success,
                OperationMessage::RebaseCompleted { applied },
            )
            &&& shows(
                state,
                after(RebaseOutcome::Conflict),
                kind,
                Focus::ModalOperationConflict,
                OperationMessage::RebaseConflict,
            )
            &&& shows(
                state,
                after(RebaseOutcome::Aborted),
                kind,
                success,
                OperationMessage::RebaseAborted,
            )
            &&& fails(state, state.rebase_ended(Err(cause)), kind, FailedAction::Rebase, cause@)
        }),
{
}

/// A merge shows how it went, that it stopped, that it was given up, or why it failed.
pub proof fn law_merge_shows_its_outcome(state: AppView, cause: String)
    ensures
        ({
            let kind = OperationKind::Merge;
            let after = |outcome: MergeOutcome| state.merge_ended(Ok(outcome));
            let success = Focus::ModalOperationSuccess;
            &&& shows(
                state,
                after(MergeOutcome::Completed),
                kind,
                success,
                OperationMessage::MergeCompleted,
            )
            &&& shows(
                state,
                after(MergeOutcome::FastForward),
                kind,
                success,
                OperationMessage::MergeFastForwarded,
            )
            &&& shows(
                state,
                after(MergeOutcome::UpToDate),
                kind,
                success,
                OperationMessage::MergeAlreadyUpToDate,
            )
            &&& shows(
                state,
                after(MergeOutcome::Conflict),
                kind,
                Focus::ModalOperationConflict,
                OperationMessage::MergeConflict,
            )
            &&& shows(
                state,
                after(MergeOutcome::Aborted),
                kind,
                success,
                OperationMessage::MergeAborted,
            )
            &&& fails(state, state.merge_ended(Err(cause)), kind, FailedAction::Merge, cause@)
        }),
{
}

/// A cherry-pick and a revert show that they are done, that they stopped, that they were
/// given up, or why they failed.
pub proof fn law_picks_show_their_outcome(state: AppView, cause: String)
    ensures
        ({
            let kind = OperationKind::Cherrypick;
            let after = |outcome: CherrypickOutcome| state.cherrypick_ended(Ok(outcome));
            &&& shows(
                state,
                after(CherrypickOutcome::Committed),
                kind,
                Focus::ModalOperationSuccess,
                OperationMessage::CherrypickCompleted,
            )
            &&& shows(
                state,
                after(CherrypickOutcome::Conflict),
                kind,
                Focus::ModalOperationConflict,
                OperationMessage::CherrypickConflict,
            )
            &&& shows(
                state,
                after(CherrypickOutcome::Aborted),
                kind,
                Focus::ModalOperationSuccess,
                OperationMessage::CherrypickAborted,
            )
            &&& fails(
                state,
                state.cherrypick_ended(Err(cause)),
                kind,
                FailedAction::Cherrypick,
                cause@,
            )
        }),
        ({
            let kind = OperationKind::Revert;
            let after = |outcome: RevertOutcome| state.revert_ended(Ok(outcome));
            &&& shows(
                state,
                after(RevertOutcome::Committed),
                kind,
                Focus::ModalOperationSuccess,
                OperationMessage::RevertCompleted,
            )
            &&& shows(
                state,
                after(RevertOutcome::Conflict),
                kind,
                Focus::ModalOperationConflict,
                OperationMessage::RevertConflict,
            )
            &&& shows(
                state,
                after(RevertOutcome::Aborted),
                kind,
                Focus::ModalOperationSuccess,
                OperationMessage::RevertAborted,
            )
            &&& fails(state, state.revert_ended(Err(cause)), kind, FailedAction::Revert, cause@)
        }),
{
}

/// A conflict is shown with the given text, of whatever kind the operation is.
pub proof fn law_conflict_is_shown_as_given(
    state: AppView,
    kind: OperationKind,
    message: OperationMessage<Seq<char>>,
)
    ensures
        shows(
            state,
            state.operation_conflict(kind, message),
            kind,
            Focus::ModalOperationConflict,
            message,
        ),
{
}

/// A step goes to the handler of the operation it belongs to.
pub proof fn law_step_belongs_to_its_operation(oid: Oid, kind: OperationKind)
    ensures
        (OperationStep::StartRebase { oid }).operation() == OperationKind::Rebase,
        (OperationStep::StartMerge { oid }).operation() == OperationKind::Merge,
        (OperationStep::Continue { kind }).operation() == kind,
        (OperationStep::Abort { kind }).operation() == kind,
{
}

} // verus!
