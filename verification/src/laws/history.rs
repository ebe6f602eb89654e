//! Cherry-picking and reverting.
use crate::app::AppView;
use crate::laws::operations::{in_progress, resumes};
use crate::laws::refuses;
use crate::message::{Draft, ErrorText, FailedAction, Subject};
use crate::operation::{OperationKind, OperationMessage, PendingOperationAction};
use crate::panes::CommitInfo;
use crate::repository::RepoSnapshot;
use crate::screen::{Focus, Viewport};
use git2::Oid;
use vstd::prelude::*;

verus! {

/// `subject` is made of a commit's summary, where there is one.
pub open spec fn is_subject_of(commit: CommitInfo, subject: Subject<Seq<char>>) -> bool {
    &&& commit.summary matches Some(line) ==> subject == Subject::Line(line@)
    &&& commit.summary is None ==> subject == Subject::<Seq<char>>::Missing
}

/// Any selected commit that can be read opens the cherry-pick prompt on itself, merges
/// included; one that cannot is reported.
pub proof fn law_cherrypick_prompts_for_the_selected_commit(
    state: AppView,
    oid: Oid,
    subject: Subject<Seq<char>>,
)
    requires
        state.repo is Some,
        state.viewport is Graph,
        state.focus is Viewport,
        state.graph_selected != 0,
        state.panes.cursor.oid == Some(oid),
    ensures
        state.panes.cursor.commit matches Ok(commit) && is_subject_of(commit, subject)
            ==> state.after_cherrypick() == (AppView {
            focus: Focus::ModalCherrypick,
            pending_cherrypick_oid: Some(oid),
            modal_input: Draft::Cherrypicked(subject),
            ..state
        }),
        state.panes.cursor.commit matches Err(cause) ==> refuses(
            state,
            state.after_cherrypick(),
            ErrorText::Failed { action: FailedAction::Cherrypick, cause: cause@ },
        ),
{
}

/// Without a selected commit in the focused graph nothing is cherry-picked.
pub proof fn law_cherrypick_needs_a_commit(state: AppView)
    requires
        ({
            ||| state.repo is None
            ||| !(state.viewport is Graph)
            ||| !(state.focus is Viewport)
            ||| state.graph_selected == 0
            ||| state.panes.cursor.oid is None
        }),
    ensures
        state.after_cherrypick() == state,
{
}

/// With nothing in progress, a selected commit that can be read opens the revert prompt on
/// itself exactly if it has at most one parent; with two or more it is refused as a merge.
/// One that cannot be read is reported.
pub proof fn law_all_but_merges_are_reverted(
    state: AppView,
    repo: RepoSnapshot,
    oid: Oid,
    subject: Subject<Seq<char>>,
)
    requires
        state.repo == Some(repo),
        forall|kind: OperationKind| !in_progress(repo, kind),
        state.viewport is Graph,
        state.focus is Viewport,
        state.graph_selected != 0,
        state.panes.cursor.oid == Some(oid),
    ensures
        state.panes.cursor.commit matches Ok(commit) && is_subject_of(commit, subject) && (
        commit.parent_count == 0 || commit.parent_count == 1) ==> state.after_revert() == (AppView {
            focus: Focus::ModalRevert,
            pending_revert_oid: Some(oid),
            modal_input: Draft::Reverted(subject),
            ..state
        }),
        state.panes.cursor.commit matches Ok(commit) && commit.parent_count >= 2 ==> refuses(
            state,
            state.after_revert(),
            ErrorText::RevertMergeUnsupported,
        ),
        state.panes.cursor.commit matches Err(cause) ==> refuses(
            state,
            state.after_revert(),
            ErrorText::Failed { action: FailedAction::Revert, cause: cause@ },
        ),
{
    crate::laws::operations::lemma_in_progress(repo);
}

/// While an operation is in progress, reverting goes on with it, wherever the selection is.
pub proof fn law_revert_resumes_what_is_in_progress(
    state: AppView,
    repo: RepoSnapshot,
    kind: OperationKind,
)
    requires
        state.repo == Some(repo),
        in_progress(repo, kind),
        state.viewport == Viewport::Graph || state.viewport == Viewport::Splash,
        state.focus is Viewport,
    ensures
        resumes(
            state,
            state.after_revert(),
            PendingOperationAction::Continue,
            kind,
            OperationMessage::Continuing { kind },
        ),
{
    crate::laws::operations::lemma_in_progress(repo);
}

/// Without a repository, in the settings or the viewer, or with the focus elsewhere, nothing
/// is reverted; nor is it, with nothing in progress, without a selected commit in the graph.
pub proof fn law_revert_needs_a_commit(state: AppView)
    ensures
        state.repo is None || state.viewport is Settings || state.viewport is Viewer
            || !(state.focus is Viewport) ==> state.after_revert() == state,
        state.repo matches Some(repo) && (forall|kind: OperationKind| !in_progress(repo, kind)) && (
        !(state.viewport is Graph) || state.graph_selected == 0 || state.panes.cursor.oid is None)
            ==> state.after_revert() == state,
{
    if let Some(repo) = state.repo {
        crate::laws::operations::lemma_in_progress(repo);
    }
}

} // verus!
