//! Creating, renaming and deleting branches.
use crate::app::AppView;
use crate::effect::{Effect, GitCommand};
use crate::laws::panes::{
    law_all_but_the_checked_out_branch_may_go, law_branch_pane_is_on_one_branch_or_none,
    on_branch, on_no_branch,
};
use crate::laws::{asks_for, begins, is_path_of, lists, moves_to, refuses};
use crate::message::{Draft, ErrorText};
use crate::names::texts;
use crate::repository::RepoSnapshot;
use crate::request::NetworkRequest;
use crate::screen::{BranchModalAction, Focus, Viewport};
use crate::text::law_halves_join;
use git2::Oid;
use vstd::prelude::*;

verus! {

/// Branches can be worked on: neither the settings nor the viewer is showing.
pub open spec fn branches_are_open(state: AppView) -> bool {
    state.viewport == Viewport::Graph || state.viewport == Viewport::Splash
}

/// The prompt for a new branch opens on the selected reflog entry from the reflog, and on
/// the selected commit from everywhere else; it does not open on what is not there.
pub proof fn law_new_branch_starts_at_what_is_selected(state: AppView)
    ensures
        ({
            let after = state.after_create_branch();
            let entries = state.panes.reflog_targets@;
            let selected = state.panes.reflogs_selected;
            &&& branches_are_open(state) && state.focus is Reflogs && selected < entries.len()
                ==> after == AppView {
                focus: Focus::ModalCreateBranch,
                pending_branch_target_oid: Some(entries[selected as int]),
                ..state
            }
            &&& branches_are_open(state) && !(state.focus is Reflogs) && state.graph_selected > 0
                ==> after == AppView {
                focus: Focus::ModalCreateBranch,
                pending_branch_target_oid: None,
                ..state
            }
            &&& !branches_are_open(state) ==> after == state
            &&& state.focus is Reflogs && selected >= entries.len() ==> after == state
            &&& !(state.focus is Reflogs) && state.graph_selected == 0 ==> after == state
        }),
{
}

/// A new branch points at the pending target; without one, at the selected commit, which
/// the row of the uncommitted changes does not have.
pub proof fn law_pending_target_comes_first(state: AppView, oid: Oid)
    ensures
        state.pending_branch_target_oid == Some(oid) ==> state.branch_target() == Some(oid),
        state.pending_branch_target_oid is None && state.graph_selected > 0
            ==> state.branch_target() == state.panes.cursor.oid,
        state.pending_branch_target_oid is None && state.graph_selected == 0
            ==> state.branch_target() is None,
{
}

/// The rename prompt is open for `branch` and starts from its name; nothing else changed.
pub open spec fn prompts_for_new_name(before: AppView, after: AppView, branch: Seq<char>) -> bool {
    after == AppView {
        focus: Focus::ModalRenameBranch,
        modal_input: Draft::Text(branch),
        modal_rename_branch_source: Some(branch),
        ..before
    }
}

/// The rename prompt is about the branch it was opened for.
pub proof fn law_rename_prompt_starts_from_the_name(state: AppView, branch: Seq<char>)
    ensures
        prompts_for_new_name(state, state.renaming(branch), branch),
{
}

proof fn lemma_lists(names: Seq<String>, name: Seq<char>)
    ensures
        lists(names, name) <==> texts(names).contains(name),
{
    if lists(names, name) {
        let i = choose|i: int| 0 <= i < names.len() && (#[trigger] names[i])@ == name;
        assert(texts(names)[i] == name);
    }
    if texts(names).contains(name) {
        let i = choose|i: int| 0 <= i < texts(names).len() && texts(names)[i] == name;
        assert(names[i]@ == name);
    }
}

/// The branch pane opens the rename prompt exactly for local branches, and refuses others.
pub proof fn law_branch_pane_renames_local_branches(state: AppView, repo: RepoSnapshot)
    requires
        state.repo == Some(repo),
        branches_are_open(state),
        state.focus is Branches,
    ensures
        state.panes.selected_branch matches Some(name) ==> {
            &&& lists(repo.local_branches@, name@) ==> prompts_for_new_name(
                state,
                state.after_rename_branch(),
                name@,
            )
            &&& !lists(repo.local_branches@, name@) ==> refuses(
                state,
                state.after_rename_branch(),
                ErrorText::RenameBranchLocalOnly,
            )
        },
        state.panes.selected_branch is None ==> state.after_rename_branch() == state,
{
    if let Some(name) = state.panes.selected_branch {
        lemma_lists(repo.local_branches@, name@);
    }
}

/// In the graph the local branches of the selected commit decide: the only one is renamed,
/// among several the user chooses, and where all labels are remote that is refused. A
/// commit without labels is left alone.
pub proof fn law_graph_renames_the_local_branch(state: AppView)
    requires
        state.repo is Some,
        state.viewport is Graph,
        state.focus is Viewport,
        state.graph_selected != 0,
        state.panes.cursor.alias is Some,
    ensures
        ({
            let after = state.after_rename_branch();
            let labels = state.panes.cursor.branch_choices@;
            let local = state.panes.cursor.local_branch_choices@;
            &&& labels.len() == 0 ==> after == state
            &&& labels.len() > 0 && local.len() == 0 ==> refuses(
                state,
                after,
                ErrorText::RenameBranchLocalOnly,
            )
            &&& labels.len() > 0 && local.len() == 1 ==> prompts_for_new_name(
                state,
                after,
                local[0]@,
            )
            &&& labels.len() > 0 && local.len() >= 2 ==> after == AppView {
                focus: Focus::ModalSolo,
                modal_branch_action: BranchModalAction::Rename,
                modal_solo_selected: 0,
                ..state
            }
        }),
{
}

/// Nothing is renamed without a repository, in the settings or the viewer, from another
/// pane, or without a commit.
pub proof fn law_rename_needs_a_branch(state: AppView)
    requires
        ({
            ||| state.repo is None
            ||| !branches_are_open(state)
            ||| !(state.focus is Branches) && !(state.focus is Viewport)
            ||| state.focus is Viewport && !(state.viewport is Graph)
            ||| state.focus is Viewport && state.graph_selected == 0
            ||| state.focus is Viewport && state.panes.cursor.alias is None
        }),
    ensures
        state.after_rename_branch() == state,
{
}

/// A local branch is deleted by git, under its own name.
pub proof fn law_local_branch_is_deleted_by_git(
    state: AppView,
    repo: RepoSnapshot,
    branch: Seq<char>,
)
    requires
        state.repo == Some(repo),
        lists(repo.local_branches@, branch),
    ensures
        asks_for(
            state,
            state.deleting(branch),
            Effect::Run(GitCommand::DeleteBranch { branch }),
        ),
{
    lemma_lists(repo.local_branches@, branch);
}

/// Text splits into one pair only: what stands before its first slash and what stands
/// after.
proof fn lemma_one_split(a: Seq<char>, b: Seq<char>, c: Seq<char>, d: Seq<char>)
    requires
        a + seq!['/'] + b == c + seq!['/'] + d,
        !a.contains('/'),
        !c.contains('/'),
    ensures
        a == c,
        b == d,
{
    let text = a + seq!['/'] + b;
    let other = c + seq!['/'] + d;
    assert(text[a.len() as int] == '/');
    assert(other[c.len() as int] == '/');
    if a.len() < c.len() {
        assert(other[a.len() as int] == c[a.len() as int]);
        assert(c.contains(c[a.len() as int]));
    }
    if c.len() < a.len() {
        assert(text[c.len() as int] == a[c.len() as int]);
        assert(a.contains(a[c.len() as int]));
    }
    assert(a =~= text.take(a.len() as int));
    assert(c =~= other.take(c.len() as int));
    assert(b =~= text.skip(a.len() as int + 1));
    assert(d =~= other.skip(c.len() as int + 1));
}

/// A branch that is not local is deleted on the remote that stands before the first slash
/// of its name, under what stands after it. A name without a slash is one of `origin`. A
/// name with an empty half is refused.
pub proof fn law_remote_branch_is_deleted_on_its_remote(
    state: AppView,
    repo: RepoSnapshot,
    remote_name: Seq<char>,
    branch: Seq<char>,
    repo_path: Seq<char>,
)
    requires
        state.repo == Some(repo),
        is_path_of(state, repo_path),
        !remote_name.contains('/'),
    ensures
        ({
            let name = remote_name + seq!['/'] + branch;
            let request = NetworkRequest::DeleteRemoteBranch { repo_path, remote_name, branch };
            let cleared = AppView { modal_delete_branch_selected: 0, ..state };
            !lists(repo.local_branches@, name) ==> {
                &&& remote_name.len() > 0 && branch.len() > 0 ==> begins(
                    cleared,
                    state.deleting(name),
                    request,
                )
                &&& remote_name.len() == 0 || branch.len() == 0 ==> refuses(
                    state,
                    state.deleting(name),
                    ErrorText::DeleteBranchInvalidRemote,
                )
            }
        }),
        ({
            let name = remote_name;
            let request = NetworkRequest::DeleteRemoteBranch {
                repo_path,
                remote_name: seq!['o', 'r', 'i', 'g', 'i', 'n'],
                branch: name,
            };
            let cleared = AppView { modal_delete_branch_selected: 0, ..state };
            !lists(repo.local_branches@, name) ==> {
                &&& name.len() > 0 ==> begins(cleared, state.deleting(name), request)
                &&& name.len() == 0 ==> refuses(
                    state,
                    state.deleting(name),
                    ErrorText::DeleteBranchInvalidRemote,
                )
            }
        }),
{
    reveal_strlit("origin");
    reveal_strlit(".");
    assert("origin"@ =~= seq!['o', 'r', 'i', 'g', 'i', 'n']);
    assert("."@ =~= seq!['.']);
    let name = remote_name + seq!['/'] + branch;
    lemma_lists(repo.local_branches@, name);
    lemma_lists(repo.local_branches@, remote_name);
    law_halves_join(name, '/');
    assert(name[remote_name.len() as int] == '/');
    assert(name.contains('/'));
    let parts = crate::text::halves(name, '/')->0;
    lemma_one_split(remote_name, branch, parts.0, parts.1);
    law_halves_join(remote_name, '/');
    assert(state.repo_path() == repo_path);
}

/// Nothing is deleted without a repository.
pub proof fn law_deletion_needs_a_repository(state: AppView, branch: Seq<char>)
    requires
        state.repo is None,
    ensures
        state.deleting(branch) == state,
        state.after_delete_branch() == state,
{
}

/// The branch pane deletes the very branch it is on, unless that is checked out, which is
/// refused.
pub proof fn law_branch_pane_deletes_its_branch(
    state: AppView,
    repo: RepoSnapshot,
    alias: u32,
    name: Seq<char>,
    graph_index: Option<usize>,
)
    requires
        state.repo == Some(repo),
        branches_are_open(state),
        state.focus is Branches,
    ensures
        on_branch(state.panes, alias, name, graph_index) && (repo.current_branch matches Some(
            current,
        ) ==> current@ != name) ==> state.after_delete_branch() == state.deleting(name),
        on_branch(state.panes, alias, name, graph_index) && (repo.current_branch matches Some(
            current,
        ) && current@ == name) ==> refuses(
            state,
            state.after_delete_branch(),
            ErrorText::DeleteBranchCurrent,
        ),
        on_no_branch(state.panes) ==> state.after_delete_branch() == state,
{
    law_branch_pane_is_on_one_branch_or_none(state.panes, alias, name, graph_index);
}

/// Label number `i` of the selected commit is not the checked-out branch.
pub open spec fn may_go(state: AppView, repo: RepoSnapshot, i: int) -> bool {
    &&& 0 <= i < state.panes.cursor.branch_choices@.len()
    &&& repo.current_branch matches Some(current) ==> current@
        != state.panes.cursor.branch_choices@[i]@
}

/// In the graph the labels of the selected commit other than the checked-out branch decide:
/// the only one is deleted, among several the user chooses, and without one nothing
/// happens.
pub proof fn law_graph_deletes_the_branch_that_may_go(
    state: AppView,
    repo: RepoSnapshot,
    i: int,
    j: int,
)
    requires
        state.repo == Some(repo),
        branches_are_open(state),
        state.focus is Viewport,
        state.graph_selected != 0,
        state.panes.cursor.alias is Some,
    ensures
        (forall|k: int| !#[trigger] may_go(state, repo, k)) ==> state.after_delete_branch()
            == state,
        may_go(state, repo, i) && (forall|k: int| #[trigger] may_go(state, repo, k) ==> k == i)
            ==> state.after_delete_branch() == state.deleting(
            state.panes.cursor.branch_choices@[i]@,
        ),
        may_go(state, repo, i) && may_go(state, repo, j) && i != j ==> moves_to(
            state,
            state.after_delete_branch(),
            Focus::ModalDeleteBranch,
        ),
{
    let current = state.current_branch();
    let raw = state.panes.cursor.branch_choices@;
    law_all_but_the_checked_out_branch_may_go(state.panes, current);
    assert forall|k: int| 0 <= k < raw.len() implies (may_go(state, repo, k) <==> Some(
        (#[trigger] raw[k])@,
    ) != current) by {}
    if forall|k: int| !#[trigger] may_go(state, repo, k) {
        assert forall|k: int| 0 <= k < raw.len() implies Some((#[trigger] raw[k])@) == current by {
            assert(!may_go(state, repo, k));
        }
    }
    if may_go(state, repo, i) && (forall|k: int| #[trigger] may_go(state, repo, k) ==> k == i) {
        assert(Some(raw[i]@) != current);
        assert forall|k: int| 0 <= k < raw.len() && k != i implies Some((#[trigger] raw[k])@)
            == current by {
            assert(!may_go(state, repo, k));
        }
        assert(state.panes.deletable(current) == seq![raw[i]@]);
    }
    if may_go(state, repo, i) && may_go(state, repo, j) && i != j {
        let low = if i < j {
            i
        } else {
            j
        };
        let high = if i < j {
            j
        } else {
            i
        };
        assert(Some(raw[low]@) != current && Some(raw[high]@) != current);
        assert(state.panes.deletable(current).len() >= 2);
    }
}

/// Nothing is deleted in the settings or the viewer, from another pane, or without a commit.
pub proof fn law_deletion_needs_a_branch(state: AppView)
    requires
        ({
            ||| !branches_are_open(state)
            ||| !(state.focus is Branches) && !(state.focus is Viewport)
            ||| state.focus is Viewport && state.graph_selected == 0
            ||| state.focus is Viewport && state.panes.cursor.alias is None
        }),
    ensures
        state.after_delete_branch() == state,
{
}

} // verus!
