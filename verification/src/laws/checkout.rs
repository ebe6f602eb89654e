//! Checking out, resetting and stashing, and what the end of a command does.
use crate::app::AppView;
use crate::effect::{CheckoutOrigin, Effect, GitCommand, ResetMode, StagedFrom};
use crate::laws::asks_for;
use crate::laws::moves_to;
use crate::laws::panes::{
    law_branch_pane_is_on_one_branch_or_none, law_first_position_is_found, on_branch, on_no_branch,
};
use crate::message::{ErrorText, FailedAction};
use crate::screen::Focus;
use git2::Oid;
use vstd::prelude::*;

verus! {

/// In the graph, the labels of the selected commit decide: a detached checkout is asked
/// for exactly if there is none, local or remote; a single one is checked out, whatever
/// its name; and among several the user chooses.
pub proof fn law_labels_decide_what_is_checked_out(state: AppView, alias: u32, oid: Oid)
    requires
        state.repo is Some,
        state.viewport is Graph,
        state.focus is Viewport,
        state.graph_selected != 0,
        state.panes.cursor.alias == Some(alias),
        state.panes.cursor.oid == Some(oid),
    ensures
        state.panes.cursor.branch_choices@.len() == 0 <==> asks_for(
            state,
            state.after_checkout(),
            Effect::Run(GitCommand::CheckoutHead { oid }),
        ),
        state.panes.cursor.branch_choices@.len() == 1 ==> asks_for(
            state,
            state.after_checkout(),
            Effect::CheckoutBranch {
                alias,
                branch: state.panes.cursor.branch_choices@[0]@,
                origin: CheckoutOrigin::Graph,
            },
        ),
        state.panes.cursor.branch_choices@.len() >= 2 <==> moves_to(
            state,
            state.after_checkout(),
            Focus::ModalCheckout,
        ),
{
    let n = state.effects.len();
    let head: crate::effect::EffectView = Effect::Run(GitCommand::CheckoutHead { oid });
    assert(state.effects.push(head).len() == n + 1);
    if state.panes.cursor.branch_choices@.len() == 1 {
        assert(state.after_checkout().effects[n as int] is CheckoutBranch);
        assert(state.effects.push(head)[n as int] is Run);
    }
}

/// The branch pane checks out the very branch it is on, and nothing if it is on none.
pub proof fn law_branch_pane_checks_out_its_branch(
    state: AppView,
    alias: u32,
    name: Seq<char>,
    graph_index: Option<usize>,
)
    requires
        state.repo is Some,
        state.focus is Branches,
    ensures
        on_branch(state.panes, alias, name, graph_index) ==> asks_for(
            state,
            state.after_checkout(),
            Effect::CheckoutBranch {
                alias,
                branch: name,
                origin: CheckoutOrigin::Pane { graph_index },
            },
        ),
        on_no_branch(state.panes) ==> state.after_checkout() == state,
{
    law_branch_pane_is_on_one_branch_or_none(state.panes, alias, name, graph_index);
}

/// Nothing is checked out from anywhere else, or without a commit to check out.
pub proof fn law_checkout_needs_something_to_check_out(state: AppView)
    requires
        ({
            ||| state.repo is None
            ||| !(state.focus is Branches) && !(state.focus is Viewport)
            ||| state.focus is Viewport && !(state.viewport is Graph)
            ||| state.focus is Viewport && state.graph_selected == 0
            ||| state.focus is Viewport && state.panes.cursor.alias is None
            ||| state.focus is Viewport && state.panes.cursor.oid is None
        }),
    ensures
        state.after_checkout() == state,
{
}

/// A branch checkout that went through brings the focus back to the viewport, takes over
/// the hidden branches, has them saved where it is known where, and reads everything anew.
/// Only a checkout from the pane moves the selection of the graph: to the row it knew, to
/// the first row of the commit, or to the top.
pub proof fn law_branch_checkout_is_followed_up(
    state: AppView,
    alias: u32,
    origin: CheckoutOrigin,
    hidden: Set<Seq<char>>,
)
    ensures
        ({
            let after = state.branch_checkout_ended(alias, origin, hidden, Ok(()));
            let shown = state.panes.sorted_aliases@;
            &&& after == AppView {
                focus: Focus::Viewport,
                hidden_branch_names: hidden,
                graph_selected: after.graph_selected,
                effects: after.effects,
                ..state
            }
            &&& state.path is None ==> after.effects == state.effects.push(Effect::Reload)
            &&& state.path matches Some(path) ==> after.effects == state.effects.push(
                Effect::SaveBranchVisibility { path, hidden },
            ).push(Effect::Reload)
            &&& origin is Graph ==> after.graph_selected == state.graph_selected
            &&& origin matches CheckoutOrigin::Pane { graph_index: Some(row) }
                ==> after.graph_selected == row
            &&& origin == (CheckoutOrigin::Pane { graph_index: None }) && shown.contains(alias)
                ==> after.graph_selected < shown.len() && shown[after.graph_selected as int]
                == alias && forall|i: int| 0 <= i < after.graph_selected ==> shown[i] != alias
            &&& origin == (CheckoutOrigin::Pane { graph_index: None }) && !shown.contains(alias)
                ==> after.graph_selected == 0
        }),
{
    law_first_position_is_found(state.panes.sorted_aliases@, alias);
    assert(state.panes.sorted_aliases@.len() == state.panes.sorted_aliases.len());
}

/// A branch checkout that failed is reported with its cause and moves nothing.
pub proof fn law_failed_branch_checkout_is_reported(
    state: AppView,
    alias: u32,
    origin: CheckoutOrigin,
    hidden: Set<Seq<char>>,
    cause: String,
)
    ensures
        asks_for(
            AppView { hidden_branch_names: hidden, ..state },
            state.branch_checkout_ended(alias, origin, hidden, Err(cause)),
            Effect::ShowError(ErrorText::Failed { action: FailedAction::Checkout, cause: cause@ }),
        ),
{
}

/// A reset in the graph is to the selected commit, hard or mixed as asked.
pub proof fn law_reset_is_to_the_selected_commit(state: AppView, oid: Oid)
    requires
        state.repo is Some,
        state.viewport is Graph,
        state.focus is Viewport,
        state.panes.cursor.oid == Some(oid),
    ensures
        asks_for(
            state,
            state.after_hard_reset(),
            Effect::Run(GitCommand::Reset { oid, mode: ResetMode::Hard }),
        ),
        asks_for(
            state,
            state.after_mixed_reset(),
            Effect::Run(GitCommand::Reset { oid, mode: ResetMode::Mixed }),
        ),
{
}

/// A hard reset in a status pane is of the selected file, and of nothing if none is; a
/// mixed one does nothing there.
pub proof fn law_hard_reset_in_a_status_pane_is_of_the_file(state: AppView)
    requires
        state.repo is Some,
        state.focus is StatusTop || state.focus is StatusBottom,
    ensures
        state.panes.selected_file matches Some(file) ==> asks_for(
            state,
            state.after_hard_reset(),
            Effect::Run(GitCommand::ResetFile { path: file@ }),
        ),
        state.panes.selected_file is None ==> state.after_hard_reset() == state,
        state.after_mixed_reset() == state,
{
}

/// Nothing is reset without a repository, from another pane or view, or without a commit.
pub proof fn law_reset_needs_something_to_reset(state: AppView)
    requires
        !(state.focus is StatusTop) && !(state.focus is StatusBottom) || state.repo is None,
        ({
            ||| state.repo is None
            ||| !(state.focus is Viewport)
            ||| !(state.viewport is Graph)
            ||| state.panes.cursor.oid is None
        }),
    ensures
        state.after_hard_reset() == state,
        state.after_mixed_reset() == state,
{
}

/// Dropping and popping are of the stash in focus: the selected row of the graph if that
/// is one, or the selection of the stash pane.
pub proof fn law_stash_in_focus_is_dropped_or_popped(state: AppView, oid: Oid)
    requires
        state.repo is Some,
        state.viewport is Graph,
        ({
            ||| state.focus is Viewport && (state.panes.cursor.row matches Some(row)
                && row.is_stash && row.oid == oid)
            ||| state.focus is Stashes && state.panes.selected_stash == Some(oid)
        }),
    ensures
        asks_for(state, state.after_drop(), Effect::Run(GitCommand::DropStash { oid })),
        asks_for(state, state.after_pop(), Effect::Run(GitCommand::PopStash { oid })),
{
}

/// Without a stash in focus nothing is dropped or popped.
pub proof fn law_without_a_stash_nothing_is_dropped_or_popped(state: AppView)
    requires
        ({
            ||| state.repo is None
            ||| !(state.viewport is Graph)
            ||| !(state.focus is Viewport) && !(state.focus is Stashes)
            ||| state.focus is Viewport && (state.panes.cursor.row matches Some(row)
                ==> !row.is_stash)
            ||| state.focus is Stashes && state.panes.selected_stash is None
        }),
    ensures
        state.after_drop() == state,
        state.after_pop() == state,
{
}

/// Stashing works from the focused graph of an open repository, and from nowhere else.
pub proof fn law_stashing_is_from_the_graph(state: AppView)
    ensures
        state.repo is Some && state.viewport is Graph && state.focus is Viewport ==> asks_for(
            state,
            state.after_stash(),
            Effect::Run(GitCommand::Stash),
        ),
        state.repo is None || !(state.viewport is Graph) || !(state.focus is Viewport)
            ==> state.after_stash() == state,
{
}

/// Commands on stashes, files and tags, and submodules staged from a status pane, leave
/// everything as it is and only have it read anew.
pub proof fn law_most_commands_only_reload(state: AppView, command: GitCommand<Seq<char>>)
    requires
        ({
            ||| command is DropStash || command is PopStash || command is Stash
            ||| command is ResetFile || command is DeleteTag
            ||| command is StageAll || command is UnstageAll
            ||| command is StageFile || command is UnstageFile
            ||| command matches GitCommand::StageSubmodule { from: StagedFrom::Status, .. }
            ||| command matches GitCommand::UnstageSubmodule { from: StagedFrom::Status, .. }
        }),
    ensures
        asks_for(state, state.command_ended(command, Ok(())), Effect::Reload),
{
}

/// A detached checkout and a reset bring the focus to the viewport, and a reset puts it
/// there once more when everything has been read anew.
pub proof fn law_moving_head_focuses_the_viewport(state: AppView, oid: Oid, mode: ResetMode)
    ensures
        state.command_ended(GitCommand::CheckoutHead { oid }, Ok(())) == (AppView {
            focus: Focus::Viewport,
            effects: state.effects.push(Effect::Reload),
            ..state
        }),
        state.command_ended(GitCommand::Reset { oid, mode }, Ok(())) == (AppView {
            focus: Focus::Viewport,
            effects: state.effects.push(Effect::Reload).push(Effect::Focus(Focus::Viewport)),
            ..state
        }),
{
}

/// A submodule staged or unstaged from its pane leaves the focus on that pane.
pub proof fn law_submodule_pane_keeps_the_focus(state: AppView, name: Seq<char>)
    ensures
        ({
            let from = StagedFrom::SubmodulePane;
            let kept = AppView {
                focus: Focus::Submodules,
                effects: state.effects.push(Effect::Reload),
                ..state
            };
            &&& state.command_ended(GitCommand::StageSubmodule { name, from }, Ok(())) == kept
            &&& state.command_ended(GitCommand::UnstageSubmodule { name, from }, Ok(())) == kept
        }),
{
}

/// Deleting a branch shows it no longer as hidden, has that saved if it was and it is known
/// where, brings the focus and the choice of branches back to their start, and reads
/// everything anew.
pub proof fn law_deleting_a_branch_is_followed_up(state: AppView, branch: Seq<char>)
    ensures
        ({
            let after = state.command_ended(GitCommand::DeleteBranch { branch }, Ok(()));
            let hidden = state.hidden_branch_names.remove(branch);
            let was_hidden = state.hidden_branch_names.contains(branch);
            &&& after == AppView {
                focus: Focus::Viewport,
                modal_delete_branch_selected: 0,
                hidden_branch_names: hidden,
                effects: after.effects,
                ..state
            }
            &&& was_hidden && state.path is Some ==> after.effects == state.effects.push(
                Effect::SaveBranchVisibility { path: state.path->0, hidden },
            ).push(Effect::Reload)
            &&& !was_hidden || state.path is None ==> after.effects == state.effects.push(
                Effect::Reload,
            )
        }),
{
    if !state.hidden_branch_names.contains(branch) {
        assert(state.hidden_branch_names.remove(branch) =~= state.hidden_branch_names);
    }
}

/// A command that failed is reported under its own name, with its cause, and changes
/// nothing.
pub proof fn law_failed_command_is_reported_by_its_name(
    state: AppView,
    command: GitCommand<Seq<char>>,
    cause: String,
)
    ensures
        exists|action: FailedAction|
            {
                &&& #[trigger] asks_for(
                    state,
                    state.command_ended(command, Err(cause)),
                    Effect::ShowError(ErrorText::Failed { action, cause: cause@ }),
                )
                &&& command is DropStash <==> action is DropStash
                &&& command is PopStash <==> action is PopStash
                &&& command is Stash <==> action is Stash
                &&& command is CheckoutHead <==> action is Checkout
                &&& (command matches GitCommand::Reset { mode: ResetMode::Hard, .. })
                    <==> action is HardReset
                &&& (command matches GitCommand::Reset { mode: ResetMode::Mixed, .. })
                    <==> action is MixedReset
                &&& command is ResetFile <==> action is ResetFile
                &&& command is StageAll <==> action is StageAll
                &&& command is StageFile <==> action is StageFile
                &&& command is StageSubmodule <==> action is StageSubmodule
                &&& command is UnstageAll <==> action is UnstageAll
                &&& command is UnstageFile <==> action is UnstageFile
                &&& command is UnstageSubmodule <==> action is UnstageSubmodule
                &&& command is DeleteBranch <==> action is DeleteBranch
                &&& command is DeleteTag <==> action is DeleteTag
            },
{
    assert(asks_for(
        state,
        state.command_ended(command, Err(cause)),
        Effect::ShowError(ErrorText::Failed { action: command.action(), cause: cause@ }),
    ));
}

} // verus!
