//! Staging, unstaging, committing and tagging.
use crate::app::AppView;
use crate::effect::{Effect, GitCommand, StagedFrom};
use crate::laws::panes::{
    carries_tags, is_first_at, law_cursor_sees_all_tags, law_submodule_is_the_first_at_the_path,
    law_tag_pane_is_on_one_tag_or_none, on_no_tag, on_tag,
};
use crate::laws::{asks_for, moves_to, refuses};
use crate::message::ErrorText;
use crate::panes::StatusSelection;
use crate::paths::same_place;
use crate::repository::RepoSnapshot;
use crate::screen::{Focus, Viewport};
use vstd::prelude::*;

verus! {

/// Inputs about the index get through: a repository is open and the settings are not.
pub open spec fn index_is_open(state: AppView) -> bool {
    state.repo is Some && !(state.viewport is Settings)
}

/// From the viewport everything is staged exactly if anything is unstaged, and unstaged
/// exactly if anything is staged.
pub proof fn law_viewport_stages_everything(state: AppView)
    requires
        index_is_open(state),
        state.focus is Viewport,
    ensures
        state.panes.is_unstaged ==> asks_for(
            state,
            state.after_stage(),
            Effect::Run(GitCommand::StageAll),
        ),
        !state.panes.is_unstaged ==> state.after_stage() == state,
        state.panes.is_staged ==> asks_for(
            state,
            state.after_unstage(),
            Effect::Run(GitCommand::UnstageAll),
        ),
        !state.panes.is_staged ==> state.after_unstage() == state,
{
}

/// No submodule lives at the path.
pub open spec fn is_plain_file(repo: RepoSnapshot, path: Seq<char>) -> bool {
    repo.submodules matches Some(list) ==> forall|j: int|
        0 <= j < list@.len() ==> !same_place((#[trigger] list@[j]).path@, path)
}

/// Entry number `i` of the submodules is the first at the path, and goes by `name`.
pub open spec fn is_submodule(
    repo: RepoSnapshot,
    path: Seq<char>,
    i: int,
    name: Seq<char>,
) -> bool {
    &&& repo.submodules matches Some(list) && is_first_at(list@, i, path)
    &&& repo.submodules->0@[i].name matches Some(own) ==> name == own@
    &&& repo.submodules->0@[i].name is None ==> name == path
}

/// From its status pane the selected file is staged or unstaged under its own path, or,
/// where a submodule lives there, as that submodule.
pub proof fn law_status_panes_stage_the_selected_file(
    state: AppView,
    repo: RepoSnapshot,
    file: String,
    i: int,
    name: Seq<char>,
)
    requires
        state.repo == Some(repo),
        !(state.viewport is Settings),
    ensures
        state.focus is StatusBottom && state.panes.unstaged_file == (StatusSelection {
            name: Some(file),
            is_conflict: false,
        }) ==> {
            &&& is_plain_file(repo, file@) ==> asks_for(
                state,
                state.after_stage(),
                Effect::Run(GitCommand::StageFile { path: file@ }),
            )
            &&& is_submodule(repo, file@, i, name) ==> asks_for(
                state,
                state.after_stage(),
                Effect::Run(GitCommand::StageSubmodule { name, from: StagedFrom::Status }),
            )
        },
        state.focus is StatusTop && state.panes.staged_file == (StatusSelection {
            name: Some(file),
            is_conflict: false,
        }) ==> {
            &&& is_plain_file(repo, file@) ==> asks_for(
                state,
                state.after_unstage(),
                Effect::Run(GitCommand::UnstageFile { path: file@ }),
            )
            &&& is_submodule(repo, file@, i, name) ==> asks_for(
                state,
                state.after_unstage(),
                Effect::Run(GitCommand::UnstageSubmodule { name, from: StagedFrom::Status }),
            )
        },
{
    law_submodule_is_the_first_at_the_path(repo, file@, i);
}

/// A file in conflict is refused, whatever else is known of it; where no file is selected
/// nothing happens.
pub proof fn law_status_panes_refuse_conflicts(state: AppView)
    requires
        index_is_open(state),
    ensures
        state.focus is StatusBottom && state.panes.unstaged_file.is_conflict ==> refuses(
            state,
            state.after_stage(),
            ErrorText::StageFileConflict,
        ),
        state.focus is StatusTop && state.panes.staged_file.is_conflict ==> refuses(
            state,
            state.after_unstage(),
            ErrorText::UnstageFileConflict,
        ),
        state.focus is StatusBottom && !state.panes.unstaged_file.is_conflict
            && state.panes.unstaged_file.name is None ==> state.after_stage() == state,
        state.focus is StatusTop && !state.panes.staged_file.is_conflict
            && state.panes.staged_file.name is None ==> state.after_unstage() == state,
{
}

/// From its pane the selected submodule is staged or unstaged, and nothing if none is.
pub proof fn law_submodule_pane_stages_the_selected_one(state: AppView)
    requires
        index_is_open(state),
        state.focus is Submodules,
    ensures
        state.panes.selected_submodule matches Some(name) ==> {
            let from = StagedFrom::SubmodulePane;
            &&& asks_for(
                state,
                state.after_stage(),
                Effect::Run(GitCommand::StageSubmodule { name: name@, from }),
            )
            &&& asks_for(
                state,
                state.after_unstage(),
                Effect::Run(GitCommand::UnstageSubmodule { name: name@, from }),
            )
        },
        state.panes.selected_submodule is None ==> state.after_stage() == state
            && state.after_unstage() == state,
{
}

/// Staging does nothing outside its three panes, and unstaging neither; both do nothing in
/// the settings or without a repository.
pub proof fn law_index_is_left_alone_elsewhere(state: AppView)
    ensures
        !index_is_open(state) || !(state.focus is Viewport || state.focus is StatusBottom
            || state.focus is Submodules) ==> state.after_stage() == state,
        !index_is_open(state) || !(state.focus is Viewport || state.focus is StatusTop
            || state.focus is Submodules) ==> state.after_unstage() == state,
{
}

/// The commit prompt opens exactly if anything is staged, in the graph and on the splash
/// screen, whatever has the focus.
pub proof fn law_commit_needs_something_staged(state: AppView)
    ensures
        state.panes.is_staged && (state.viewport == Viewport::Graph || state.viewport
            == Viewport::Splash) ==> moves_to(state, state.after_commit(), Focus::ModalCommit),
        !state.panes.is_staged || state.viewport == Viewport::Settings || state.viewport
            == Viewport::Viewer ==> state.after_commit() == state,
{
}

/// The tag prompt opens over the viewport on any row but that of the uncommitted changes,
/// in the graph and on the splash screen.
pub proof fn law_tag_prompt_needs_a_row(state: AppView)
    ensures
        (state.viewport == Viewport::Graph || state.viewport == Viewport::Splash) && state.focus
            == Focus::Viewport && state.graph_selected > 0 ==> moves_to(
            state,
            state.after_tag(),
            Focus::ModalTag,
        ),
        state.viewport == Viewport::Settings || state.viewport == Viewport::Viewer || state.focus
            != Focus::Viewport || state.graph_selected == 0 ==> state.after_tag() == state,
{
}

/// Tags can be deleted: a repository is open, and neither the settings nor the viewer is.
pub open spec fn tags_are_open(state: AppView) -> bool {
    state.repo is Some && (state.viewport == Viewport::Graph || state.viewport == Viewport::Splash)
}

/// The tag pane deletes the very tag it is on, and nothing if it is on none.
pub proof fn law_tag_pane_deletes_its_tag(state: AppView, tag: Seq<char>)
    requires
        tags_are_open(state),
        state.focus is Tags,
    ensures
        on_tag(state.panes, tag) ==> asks_for(
            state,
            state.after_untag(),
            Effect::Run(GitCommand::DeleteTag { tag }),
        ),
        on_no_tag(state.panes) ==> state.after_untag() == state,
{
    law_tag_pane_is_on_one_tag_or_none(state.panes, tag);
}

/// In the graph the only tag of the selected commit is deleted, and among several the user
/// chooses.
pub proof fn law_only_tag_of_the_commit_is_deleted(state: AppView, tags: Seq<String>)
    requires
        tags_are_open(state),
        state.focus is Viewport,
        state.graph_selected != 0,
        carries_tags(state.panes, tags),
    ensures
        tags.len() == 0 ==> state.after_untag() == state,
        tags.len() == 1 ==> asks_for(
            state,
            state.after_untag(),
            Effect::Run(GitCommand::DeleteTag { tag: tags[0]@ }),
        ),
        tags.len() >= 2 ==> moves_to(state, state.after_untag(), Focus::ModalDeleteTag),
{
    law_cursor_sees_all_tags(state.panes, tags);
}

/// Nothing is untagged from elsewhere.
pub proof fn law_tags_are_left_alone_elsewhere(state: AppView)
    requires
        !tags_are_open(state) || !(state.focus is Tags) && (!(state.focus is Viewport)
            || state.graph_selected == 0),
    ensures
        state.after_untag() == state,
{
}

} // verus!
