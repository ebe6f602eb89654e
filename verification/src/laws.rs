//! What holds across inputs, and over whole runs of them.
pub mod branches;
pub mod calls;
pub mod checkout;
pub mod history;
pub mod network;
pub mod operations;
pub mod panes;
pub mod paths;
pub mod scanning;
pub mod screen;
pub mod staging;
pub mod views;
pub mod watching;

use crate::app::AppView;
use crate::effect::{CheckoutOrigin, Effect, EffectView, GitCommand, OperationStep};
use crate::input::branches::remote_branch;
use crate::input::network::MAX_AUTH_ATTEMPTS;
use crate::message::ErrorText;
use crate::names::texts;
use crate::operation::{
    CherrypickOutcome, MergeOutcome, OperationKind, PendingOperationAction, RebaseOutcome,
    RevertOutcome,
};
use crate::panes::position_of;
use crate::repository::RepositoryState;
use crate::request::{NetworkPoll, NetworkRequest, NetworkResult};
use crate::screen::Focus;
use crate::text::law_halves_join;
use git2::Oid;
use vstd::prelude::*;

verus! {

/// The inputs of the user.
pub enum Input {
    Drop,
    Pop,
    Stash,
    Find,
    FindFile,
    FetchAll,
    Checkout,
    HardReset,
    MixedReset,
    Unstage,
    Stage,
    Commit,
    ForcePush,
    PushTags,
    CreateBranch,
    RenameBranch,
    DeleteBranch,
    Tag,
    Untag,
    Cherrypick,
    Revert,
    Rebase,
    Merge,
    ContinueOperation,
    AbortOperation,
}

impl AppView {
    /// The state after an input.
    pub open spec fn after_input(self, input: Input) -> AppView {
        match input {
            Input::Drop => self.after_drop(),
            Input::Pop => self.after_pop(),
            Input::Stash => self.after_stash(),
            Input::Find => self.after_find(),
            Input::FindFile => self.after_find_file(),
            Input::FetchAll => self.after_fetch_all(),
            Input::Checkout => self.after_checkout(),
            Input::HardReset => self.after_hard_reset(),
            Input::MixedReset => self.after_mixed_reset(),
            Input::Unstage => self.after_unstage(),
            Input::Stage => self.after_stage(),
            Input::Commit => self.after_commit(),
            Input::ForcePush => self.after_force_push(),
            Input::PushTags => self.after_push_tags(),
            Input::CreateBranch => self.after_create_branch(),
            Input::RenameBranch => self.after_rename_branch(),
            Input::DeleteBranch => self.after_delete_branch(),
            Input::Tag => self.after_tag(),
            Input::Untag => self.after_untag(),
            Input::Cherrypick => self.after_cherrypick(),
            Input::Revert => self.after_revert(),
            Input::Rebase => self.after_rebase(),
            Input::Merge => self.after_merge(),
            Input::ContinueOperation => self.after_continue_operation(),
            Input::AbortOperation => self.after_abort_operation(),
        }
    }
}

/// All that happened between `before` and `after` is that `effect` was asked for.
pub open spec fn asks_for(before: AppView, after: AppView, effect: EffectView) -> bool {
    after == AppView { effects: before.effects.push(effect), ..before }
}

/// All that happened between `before` and `after` is that an error was shown.
pub open spec fn refuses(before: AppView, after: AppView, text: ErrorText<Seq<char>>) -> bool {
    asks_for(before, after, Effect::ShowError(text))
}

/// All that happened between `before` and `after` is that the focus moved.
pub open spec fn moves_to(before: AppView, after: AppView, focus: Focus) -> bool {
    after == AppView { focus, ..before }
}

/// One of the strings reads `name`.
pub open spec fn lists(names: Seq<String>, name: Seq<char>) -> bool {
    exists|i: int| 0 <= i < names.len() && (#[trigger] names[i])@ == name
}

/// `path` is the path of the open repository, or a dot where none is known.
pub open spec fn is_path_of(state: AppView, path: Seq<char>) -> bool {
    &&& state.path matches Some(known) ==> path == known
    &&& state.path is None ==> path == seq!['.']
}

/// A request came up between `before` and `after`: it is under way from now on, with no
/// attempt counted, or it was refused because another one is.
pub open spec fn begins(
    before: AppView,
    after: AppView,
    request: NetworkRequest<Seq<char>>,
) -> bool {
    if before.network_running {
        refuses(before, after, ErrorText::NetworkAlreadyRunning)
    } else {
        after == AppView {
            pending_network_request: Some(request),
            network_auth_attempts: 0,
            modal_network: Some(request),
            network_running: true,
            focus: Focus::ModalNetworkProgress,
            effects: before.effects.push(Effect::SpawnNetwork(request)),
            ..before
        }
    }
}

/// No input asks for anything while no repository is open.
pub proof fn law_nothing_is_asked_for_without_a_repository(state: AppView, input: Input)
    requires
        state.repo is None,
    ensures
        state.after_input(input).effects == state.effects,
{
}

/// `after` shows the same things as `before`, with the same row of the graph selected
/// and the same branches hidden, and asks for at most one thing more.
pub open spec fn only_one_effect_more(before: AppView, after: AppView) -> bool {
    &&& after.repo == before.repo
    &&& after.path == before.path
    &&& after.viewport == before.viewport
    &&& after.panes == before.panes
    &&& after.graph_selected == before.graph_selected
    &&& after.hidden_branch_names == before.hidden_branch_names
    &&& after.effects == before.effects || after.effects == before.effects.push(
        after.effects.last(),
    )
}

proof fn lemma_stash_inputs_keep(state: AppView)
    ensures
        only_one_effect_more(state, state.after_drop()),
        only_one_effect_more(state, state.after_pop()),
        only_one_effect_more(state, state.after_stash()),
{
}

proof fn lemma_search_inputs_keep(state: AppView)
    ensures
        only_one_effect_more(state, state.after_find()),
        only_one_effect_more(state, state.after_find_file()),
        only_one_effect_more(state, state.after_commit()),
{
}

proof fn lemma_network_inputs_keep(state: AppView)
    ensures
        only_one_effect_more(state, state.after_fetch_all()),
        only_one_effect_more(state, state.after_force_push()),
        only_one_effect_more(state, state.after_push_tags()),
{
}

proof fn lemma_checkout_inputs_keep(state: AppView)
    ensures
        only_one_effect_more(state, state.after_checkout()),
        only_one_effect_more(state, state.after_hard_reset()),
        only_one_effect_more(state, state.after_mixed_reset()),
{
}

proof fn lemma_staging_inputs_keep(state: AppView)
    ensures
        only_one_effect_more(state, state.after_unstage()),
        only_one_effect_more(state, state.after_stage()),
{
}

proof fn lemma_branch_inputs_keep(state: AppView)
    ensures
        only_one_effect_more(state, state.after_create_branch()),
        only_one_effect_more(state, state.after_rename_branch()),
{
}

proof fn lemma_deletion_inputs_keep(state: AppView)
    ensures
        only_one_effect_more(state, state.after_delete_branch()),
{
}

proof fn lemma_tag_inputs_keep(state: AppView)
    ensures
        only_one_effect_more(state, state.after_tag()),
        only_one_effect_more(state, state.after_untag()),
{
}

proof fn lemma_commit_inputs_keep(state: AppView)
    ensures
        only_one_effect_more(state, state.after_cherrypick()),
        only_one_effect_more(state, state.after_revert()),
{
}

proof fn lemma_operation_inputs_keep(state: AppView)
    ensures
        only_one_effect_more(state, state.after_rebase()),
        only_one_effect_more(state, state.after_merge()),
        only_one_effect_more(state, state.after_continue_operation()),
        only_one_effect_more(state, state.after_abort_operation()),
{
}

/// An input never touches what is on screen, which row of the graph is selected or
/// which branches are hidden, and asks for at most one thing, after all that was
/// asked for before.
pub proof fn law_inputs_keep_what_is_shown(state: AppView, input: Input)
    ensures
        only_one_effect_more(state, state.after_input(input)),
{
    match input {
        Input::Drop | Input::Pop | Input::Stash => {
            lemma_stash_inputs_keep(state);
        },
        Input::Find | Input::FindFile | Input::Commit => {
            lemma_search_inputs_keep(state);
        },
        Input::FetchAll | Input::ForcePush | Input::PushTags => {
            lemma_network_inputs_keep(state);
        },
        Input::Checkout | Input::HardReset | Input::MixedReset => {
            lemma_checkout_inputs_keep(state);
        },
        Input::Unstage | Input::Stage => {
            lemma_staging_inputs_keep(state);
        },
        Input::CreateBranch | Input::RenameBranch => {
            lemma_branch_inputs_keep(state);
        },
        Input::DeleteBranch => {
            lemma_deletion_inputs_keep(state);
        },
        Input::Tag | Input::Untag => {
            lemma_tag_inputs_keep(state);
        },
        Input::Cherrypick | Input::Revert => {
            lemma_commit_inputs_keep(state);
        },
        Input::Rebase | Input::Merge | Input::ContinueOperation | Input::AbortOperation => {
            lemma_operation_inputs_keep(state);
        },
    }
}

/// In the settings only two inputs do anything, and they only while a side pane has
/// the focus: checkout from the branch pane, and hard reset from a status pane.
pub proof fn law_settings_are_left_alone(state: AppView, input: Input)
    requires
        state.viewport is Settings,
        input is Checkout ==> !(state.focus is Branches),
        input is HardReset ==> !(state.focus is StatusTop) && !(state.focus is StatusBottom),
    ensures
        state.after_input(input) == state,
{
}

/// The row of the uncommitted changes is selected, and no operation is in progress.
pub open spec fn on_uncommitted_row(state: AppView) -> bool {
    &&& state.graph_selected == 0
    &&& state.focus is Viewport
    &&& state.active_operation() is None
    &&& state.repo matches Some(repo) ==> !repo.busy()
}

proof fn lemma_uncommitted_row_has_no_branch(state: AppView)
    requires
        on_uncommitted_row(state),
    ensures
        state.after_checkout() == state,
        state.after_create_branch() == state,
        state.after_rename_branch() == state,
        state.after_delete_branch() == state,
{
}

proof fn lemma_uncommitted_row_has_no_tag(state: AppView)
    requires
        on_uncommitted_row(state),
    ensures
        state.after_tag() == state,
        state.after_untag() == state,
{
}

proof fn lemma_uncommitted_row_starts_nothing(state: AppView)
    requires
        on_uncommitted_row(state),
    ensures
        state.after_cherrypick() == state,
        state.after_revert() == state,
        state.after_rebase() == state,
        state.after_merge() == state,
{
}

/// The row of the uncommitted changes has no commit: with it selected, and no
/// operation in progress, nothing that works on the selected commit does anything.
pub proof fn law_uncommitted_row_is_no_commit(state: AppView, input: Input)
    requires
        on_uncommitted_row(state),
        input is Checkout || input is CreateBranch || input is RenameBranch || input is DeleteBranch
            || input is Tag || input is Untag || input is Cherrypick || input is Revert || input
            is Rebase || input is Merge,
    ensures
        state.after_input(input) == state,
{
    match input {
        Input::Checkout | Input::CreateBranch | Input::RenameBranch | Input::DeleteBranch => {
            lemma_uncommitted_row_has_no_branch(state);
        },
        Input::Tag | Input::Untag => {
            lemma_uncommitted_row_has_no_tag(state);
        },
        _ => {
            lemma_uncommitted_row_starts_nothing(state);
        },
    }
}

/// While a modal has the focus, no input runs a git command.
pub proof fn law_modals_run_no_command(state: AppView, input: Input)
    requires
        !state.focus.on_pane(),
    ensures
        forall|i: int|
            state.effects.len() <= i < state.after_input(input).effects.len() ==> {
                let effect = #[trigger] state.after_input(input).effects[i];
                !(effect is Run) && !(effect is CheckoutBranch)
            },
{
}

/// The effects that `after` has and `before` has not do not delete `branch`.
pub open spec fn spares(before: AppView, after: AppView, branch: Seq<char>) -> bool {
    forall|i: int|
        before.effects.len() <= i < after.effects.len() ==> {
            let effect = #[trigger] after.effects[i];
            !(effect matches Effect::Run(GitCommand::DeleteBranch { branch: deleted }) && deleted
                == branch)
        }
}

proof fn lemma_deleting_spares_others(state: AppView, deleted: Seq<char>, branch: Seq<char>)
    requires
        deleted != branch,
    ensures
        spares(state, state.deleting(deleted), branch),
{
}

proof fn lemma_stash_inputs_spare(state: AppView, branch: Seq<char>)
    ensures
        spares(state, state.after_drop(), branch),
        spares(state, state.after_pop(), branch),
        spares(state, state.after_stash(), branch),
{
}

proof fn lemma_search_inputs_spare(state: AppView, branch: Seq<char>)
    ensures
        spares(state, state.after_find(), branch),
        spares(state, state.after_find_file(), branch),
        spares(state, state.after_commit(), branch),
{
}

proof fn lemma_network_inputs_spare(state: AppView, branch: Seq<char>)
    ensures
        spares(state, state.after_fetch_all(), branch),
        spares(state, state.after_force_push(), branch),
        spares(state, state.after_push_tags(), branch),
{
}

proof fn lemma_checkout_inputs_spare(state: AppView, branch: Seq<char>)
    ensures
        spares(state, state.after_checkout(), branch),
        spares(state, state.after_hard_reset(), branch),
        spares(state, state.after_mixed_reset(), branch),
{
}

proof fn lemma_staging_inputs_spare(state: AppView, branch: Seq<char>)
    ensures
        spares(state, state.after_unstage(), branch),
        spares(state, state.after_stage(), branch),
{
}

proof fn lemma_branch_inputs_spare(state: AppView, branch: Seq<char>)
    ensures
        spares(state, state.after_create_branch(), branch),
        spares(state, state.after_rename_branch(), branch),
{
}

proof fn lemma_tag_inputs_spare(state: AppView, branch: Seq<char>)
    ensures
        spares(state, state.after_tag(), branch),
        spares(state, state.after_untag(), branch),
{
}

proof fn lemma_commit_inputs_spare(state: AppView, branch: Seq<char>)
    ensures
        spares(state, state.after_cherrypick(), branch),
        spares(state, state.after_revert(), branch),
{
}

proof fn lemma_operation_inputs_spare(state: AppView, branch: Seq<char>)
    ensures
        spares(state, state.after_rebase(), branch),
        spares(state, state.after_merge(), branch),
        spares(state, state.after_continue_operation(), branch),
        spares(state, state.after_abort_operation(), branch),
{
}

proof fn lemma_deletion_inputs_spare(state: AppView, branch: Seq<char>)
    requires
        state.current_branch() == Some(branch),
    ensures
        spares(state, state.after_delete_branch(), branch),
{
    let choices = texts(state.panes.cursor.branch_choices@);
    let pass = |name: Seq<char>| state.current_branch() != Some(name);
    let kept = state.panes.deletable(state.current_branch());
    assert(kept == choices.filter(pass));
    if kept.len() > 0 {
        choices.lemma_filter_pred(pass, 0);
        lemma_deleting_spares_others(state, kept[0], branch);
    }
    if let Some((_, selected, _)) = state.panes.branch_row() {
        if selected != branch {
            lemma_deleting_spares_others(state, selected, branch);
        }
    }
}

/// No input ever deletes the checked-out branch.
pub proof fn law_checked_out_branch_is_not_deleted(state: AppView, input: Input, branch: Seq<char>)
    requires
        state.current_branch() == Some(branch),
    ensures
        spares(state, state.after_input(input), branch),
{
    match input {
        Input::Drop | Input::Pop | Input::Stash => {
            lemma_stash_inputs_spare(state, branch);
        },
        Input::Find | Input::FindFile | Input::Commit => {
            lemma_search_inputs_spare(state, branch);
        },
        Input::FetchAll | Input::ForcePush | Input::PushTags => {
            lemma_network_inputs_spare(state, branch);
        },
        Input::Checkout | Input::HardReset | Input::MixedReset => {
            lemma_checkout_inputs_spare(state, branch);
        },
        Input::Unstage | Input::Stage => {
            lemma_staging_inputs_spare(state, branch);
        },
        Input::CreateBranch | Input::RenameBranch => {
            lemma_branch_inputs_spare(state, branch);
        },
        Input::DeleteBranch => {
            lemma_deletion_inputs_spare(state, branch);
        },
        Input::Tag | Input::Untag => {
            lemma_tag_inputs_spare(state, branch);
        },
        Input::Cherrypick | Input::Revert => {
            lemma_commit_inputs_spare(state, branch);
        },
        Input::Rebase | Input::Merge | Input::ContinueOperation | Input::AbortOperation => {
            lemma_operation_inputs_spare(state, branch);
        },
    }
}

/// A file in conflict is neither staged nor unstaged: that is refused, and nothing
/// else happens.
pub proof fn law_conflicts_are_not_staged(state: AppView)
    requires
        state.repo is Some,
        !(state.viewport is Settings),
    ensures
        state.focus is StatusBottom && state.panes.unstaged_file.is_conflict
            ==> state.after_stage() == state.report(ErrorText::StageFileConflict),
        state.focus is StatusTop && state.panes.staged_file.is_conflict ==> state.after_unstage()
            == state.report(ErrorText::UnstageFileConflict),
{
}

/// Dropping and popping choose the same stash, and either both do something or
/// neither.
pub proof fn law_drop_and_pop_choose_alike(state: AppView)
    ensures
        state.chosen_stash() matches Some(oid) ==> state.after_drop().effects
            == state.effects.push(Effect::Run(GitCommand::DropStash { oid }))
            && state.after_pop().effects == state.effects.push(
            Effect::Run(GitCommand::PopStash { oid }),
        ),
        state.chosen_stash() is None ==> state.after_drop() == state && state.after_pop() == state,
{
}

/// While an operation is in progress, starting a rebase or a merge means going on
/// with it, and so does reverting if the repository's state says the same.
pub proof fn law_busy_repository_continues(state: AppView)
    requires
        state.repo matches Some(repo) && repo.busy(),
    ensures
        state.operations_open() ==> state.after_rebase() == state.after_continue_operation(),
        state.after_merge() == state.after_rebase(),
        state.active_operation() is Some ==> state.after_revert() == state.after_rebase(),
{
}

/// A confirmed step is taken up once.
pub proof fn law_pending_operation_runs_once(state: AppView)
    ensures
        state.pending_operation_run().pending_operation_action is None,
        state.pending_operation_run().pending_operation_run() == state.pending_operation_run(),
{
}

/// A rebase or merge that goes through all its stations is about the commit that was
/// selected when the user asked for it.
pub proof fn law_operation_starts_with_the_selected_commit(
    state: AppView,
    opened: RepositoryState,
    oid: Oid,
)
    requires
        state.operations_open(),
        state.viewport is Graph,
        !state.repo->0.busy(),
        state.graph_selected != 0,
        state.panes.cursor.oid == Some(oid),
    ensures
        ({
            let start = PendingOperationAction::Start { kind: OperationKind::Rebase, oid };
            let taken = state.after_rebase().pending_operation_run();
            &&& taken.effects == state.effects.push(Effect::OpenForOperation(start))
            &&& taken.operation_opened(start, Ok(opened)).effects == taken.effects.push(
                Effect::Operate(OperationStep::StartRebase { oid }),
            )
        }),
        ({
            let start = PendingOperationAction::Start { kind: OperationKind::Merge, oid };
            let taken = state.after_merge().pending_operation_run();
            &&& taken.effects == state.effects.push(Effect::OpenForOperation(start))
            &&& taken.operation_opened(start, Ok(opened)).effects == taken.effects.push(
                Effect::Operate(OperationStep::StartMerge { oid }),
            )
        }),
{
}

/// Going on with an operation, or giving it up, is about the one that was in progress
/// when the user asked for it, as long as it still is when the repository is opened.
pub proof fn law_operation_in_progress_is_the_one_resumed(
    state: AppView,
    opened: RepositoryState,
    kind: OperationKind,
)
    requires
        state.operations_open(),
        state.active_operation() == Some(kind),
        opened.operation() == Some(kind),
    ensures
        ({
            let taken = state.after_continue_operation().pending_operation_run();
            let action = PendingOperationAction::Continue;
            &&& taken.modal_operation_kind == kind
            &&& taken.effects == state.effects.push(Effect::OpenForOperation(action))
            &&& taken.operation_opened(action, Ok(opened)).effects == taken.effects.push(
                Effect::Operate(OperationStep::Continue { kind }),
            )
        }),
        ({
            let taken = state.after_abort_operation().pending_operation_run();
            let action = PendingOperationAction::Abort;
            &&& taken.modal_operation_kind == kind
            &&& taken.effects == state.effects.push(Effect::OpenForOperation(action))
            &&& taken.operation_opened(action, Ok(opened)).effects == taken.effects.push(
                Effect::Operate(OperationStep::Abort { kind }),
            )
        }),
{
}

/// `after` shows how an operation of the given kind went, and reads everything anew
/// as the last thing: in the conflict modal, in the success modal, or as an error
/// over the viewport.
pub open spec fn shows_outcome(
    before: AppView,
    after: AppView,
    kind: OperationKind,
    conflict: bool,
    failed: bool,
) -> bool {
    &&& after.modal_operation_kind == kind
    &&& after.effects.len() > before.effects.len()
    &&& after.effects.last() is Reload
    &&& after.focus is ModalOperationConflict <==> conflict
    &&& after.focus is Viewport <==> failed
    &&& after.focus is ModalOperationSuccess <==> !conflict && !failed
    &&& failed <==> after.modal_operation_message is Empty
}

/// Every outcome of every operation is shown, and everything is read anew after it.
pub proof fn law_every_outcome_is_shown(
    state: AppView,
    rebase: Result<RebaseOutcome, String>,
    merge: Result<MergeOutcome, String>,
    cherrypick: Result<CherrypickOutcome, String>,
    revert: Result<RevertOutcome, String>,
)
    ensures
        shows_outcome(
            state,
            state.rebase_ended(rebase),
            OperationKind::Rebase,
            rebase == Ok::<RebaseOutcome, String>(RebaseOutcome::Conflict),
            rebase is Err,
        ),
        shows_outcome(
            state,
            state.merge_ended(merge),
            OperationKind::Merge,
            merge == Ok::<MergeOutcome, String>(MergeOutcome::Conflict),
            merge is Err,
        ),
        shows_outcome(
            state,
            state.cherrypick_ended(cherrypick),
            OperationKind::Cherrypick,
            cherrypick == Ok::<CherrypickOutcome, String>(CherrypickOutcome::Conflict),
            cherrypick is Err,
        ),
        shows_outcome(
            state,
            state.revert_ended(revert),
            OperationKind::Revert,
            revert == Ok::<RevertOutcome, String>(RevertOutcome::Conflict),
            revert is Err,
        ),
{
}

proof fn lemma_position_of(items: Seq<u32>, item: u32)
    ensures
        position_of(items, item) is Some <==> items.contains(item),
        position_of(items, item) matches Some(at) ==> 0 <= at < items.len() && items[at] == item,
    decreases items.len(),
{
    if items.len() > 0 {
        let rest = items.drop_first();
        lemma_position_of(rest, item);
        assert(items =~= seq![items[0]] + rest);
        if rest.contains(item) {
            let i = choose|i: int| 0 <= i < rest.len() && rest[i] == item;
            assert(items[i + 1] == item);
        }
        if items.contains(item) && items[0] != item {
            let i = choose|i: int| 0 <= i < items.len() && items[i] == item;
            assert(rest[i - 1] == item);
        }
    }
}

/// After a checkout from the branch pane the graph has the row of that branch selected
/// where the pane knows it, and otherwise a row with the commit of the branch, unless
/// the graph does not show it.
pub proof fn law_checkout_selects_the_commit_of_the_branch(
    state: AppView,
    alias: u32,
    graph_index: Option<usize>,
    hidden: Set<Seq<char>>,
)
    ensures
        ({
            let origin = CheckoutOrigin::Pane { graph_index };
            let row = state.branch_checkout_ended(alias, origin, hidden, Ok(())).graph_selected;
            let shown = state.panes.sorted_aliases@;
            &&& graph_index matches Some(known) ==> row == known
            &&& graph_index is None && shown.contains(alias) ==> row < shown.len()
                && shown[row as int] == alias
            &&& graph_index is None && !shown.contains(alias) ==> row == 0
        }),
{
    lemma_position_of(state.panes.sorted_aliases@, alias);
    assert(state.panes.sorted_aliases@.len() == state.panes.sorted_aliases.len());
}

/// The prompt for a new branch is about the selected reflog entry or the selected
/// commit, and forgetting the entry leads back to the commit.
pub proof fn law_new_branch_points_at_the_selection(state: AppView)
    requires
        !(state.focus is ModalCreateBranch),
    ensures
        state.after_create_branch().focus is ModalCreateBranch && state.focus is Reflogs
            ==> state.after_create_branch().branch_target() == Some(
            state.panes.reflog_targets@[state.panes.reflogs_selected as int],
        ),
        state.after_create_branch().focus is ModalCreateBranch && !(state.focus is Reflogs)
            ==> state.after_create_branch().branch_target() == state.panes.cursor.oid,
        ({
            let cleared = AppView { pending_branch_target_oid: None, ..state.after_create_branch() };
            state.graph_selected != 0 ==> cleared.branch_target() == state.panes.cursor.oid
        }),
{
}

/// The file search always opens empty and knows the way back.
pub proof fn law_file_search_returns_where_it_came_from(state: AppView)
    requires
        !(state.focus is ModalFileSearch),
    ensures
        state.after_find_file().focus is ModalFileSearch ==> {
            &&& state.after_find_file().modal_file_search_return_focus == state.focus
            &&& state.after_find_file().modal_file_search_results.len() == 0
            &&& state.after_find_file().modal_file_search_selected == 0
        },
        !(state.after_find_file().focus is ModalFileSearch) ==> state.after_find_file() == state,
{
}

/// After a command that went through, everything is read anew: a reload is among what
/// the end of the command asks for.
pub proof fn law_success_reloads(state: AppView, command: GitCommand<Seq<char>>)
    ensures
        exists|i: int|
            state.effects.len() <= i < state.command_succeeded(command).effects.len()
                && #[trigger] state.command_succeeded(command).effects[i] is Reload,
{
    let after = state.command_succeeded(command).effects;
    match command {
        GitCommand::Reset { .. } => {
            assert(after[after.len() - 2] is Reload);
        },
        _ => {
            assert(after[after.len() - 1] is Reload);
        },
    }
}

/// A command that failed changes nothing but what is shown about it.
pub proof fn law_failure_only_reports(
    state: AppView,
    command: GitCommand<Seq<char>>,
    cause: String,
)
    ensures
        state.command_ended(command, Err(cause)) == state.report_failure(command.action(), cause@),
        (AppView { effects: state.effects, ..state.command_ended(command, Err(cause)) }) == state,
{
}

/// A branch that was deleted is no longer hidden.
pub proof fn law_deleted_branch_is_not_hidden(state: AppView, branch: Seq<char>)
    ensures
        !state.command_succeeded(
            GitCommand::DeleteBranch { branch },
        ).hidden_branch_names.contains(branch),
        forall|name: Seq<char>|
            name != branch ==> (#[trigger] state.command_succeeded(
                GitCommand::DeleteBranch { branch },
            ).hidden_branch_names.contains(name) <==> state.hidden_branch_names.contains(name)),
{
}

/// The name of a remote branch survives being taken apart into remote and branch.
proof fn lemma_remote_branch_name(name: Seq<char>)
    requires
        name.contains('/'),
    ensures
        remote_branch(name).0 + "/"@ + remote_branch(name).1 == name,
{
    reveal_strlit("/");
    assert("/"@ =~= seq!['/']);
    law_halves_join(name, '/');
}

/// A remote branch that was deleted from the screen is no longer hidden once the
/// remote has confirmed: the name is put back together as it was.
pub proof fn law_deleted_remote_branch_is_not_hidden(state: AppView, name: Seq<char>)
    requires
        state.repo is Some,
        !state.network_running,
        !state.is_local_branch(name),
        name.contains('/'),
        remote_branch(name).0.len() > 0,
        remote_branch(name).1.len() > 0,
    ensures
        state.deleting(name).network_running,
        state.deleting(name).network_polled(
            NetworkPoll::Finished(NetworkResult::Success),
        ).hidden_branch_names == state.hidden_branch_names.remove(name),
{
    lemma_remote_branch_name(name);
    let (remote_name, branch) = remote_branch(name);
    let asked = state.deleting(name);
    assert(asked.pending_network_request == Some(
        NetworkRequest::DeleteRemoteBranch { repo_path: state.repo_path(), remote_name, branch },
    ));
    if !state.hidden_branch_names.contains(name) {
        assert(state.hidden_branch_names.remove(name) =~= state.hidden_branch_names);
    }
}

/// However a request ends, nothing of it is left: no thread, no request, no prompt,
/// no attempt counted, and none of what the user typed. It goes on only if the
/// remote asks for credentials and attempts are left.
pub proof fn law_network_ends_at_rest(state: AppView, poll: NetworkPoll<Seq<char>>)
    requires
        state.network_running,
        !(poll is Running),
    ensures
        !state.network_polled(poll).network_running,
        (poll matches NetworkPoll::Finished(NetworkResult::AuthRequired { .. })
            && state.network_auth_attempts < MAX_AUTH_ATTEMPTS)
            || at_rest(state.network_polled(poll)),
{
}

/// Closing the prompt for credentials leaves nothing of the request either.
pub proof fn law_cancelling_ends_at_rest(state: AppView)
    ensures
        at_rest(state.auth_cancelled()),
{
}

/// What the user typed does not outlive the prompt: once it is closed, answered or
/// given up, the inputs are empty.
pub proof fn law_credentials_leave_with_the_prompt(state: AppView, event: NetworkEvent)
    requires
        state.nothing_typed() || state.pending_auth_prompt is Some,
        event is Typed ==> state.pending_auth_prompt is Some,
    ensures
        state.after_event(event).nothing_typed() || state.after_event(
            event,
        ).pending_auth_prompt is Some,
{
}

/// Nothing is pending on the network and nothing is left of credentials.
pub open spec fn at_rest(state: AppView) -> bool {
    &&& state.pending_network_request is None
    &&& state.network_auth_attempts == 0
    &&& state.pending_auth_prompt is None
    &&& state.auth_username_input.len() == 0
    &&& state.auth_secret_input.len() == 0
    &&& state.modal_network is None
    &&& state.focus is Viewport
}

/// What can happen to a request after it was started.
pub enum NetworkEvent {
    /// The host looked at the thread.
    Polled(NetworkPoll<Seq<char>>),
    /// The user typed into the prompt.
    Typed { username: Seq<char>, secret: Seq<char> },
    Submitted,
    Cancelled,
}

impl AppView {
    /// The state after an event.
    pub open spec fn after_event(self, event: NetworkEvent) -> AppView {
        match event {
            NetworkEvent::Polled(poll) => self.network_polled(poll),
            NetworkEvent::Typed { username, secret } => AppView {
                auth_username_input: username,
                auth_secret_input: secret,
                ..self
            },
            NetworkEvent::Submitted => self.auth_submitted(),
            NetworkEvent::Cancelled => if self.pending_auth_prompt is Some {
                self.auth_cancelled()
            } else {
                self
            },
        }
    }

    /// The state after a run of events.
    pub open spec fn after_events(self, events: Seq<NetworkEvent>) -> AppView
        decreases events.len(),
    {
        if events.len() == 0 {
            self
        } else {
            self.after_events(events.drop_last()).after_event(events.last())
        }
    }

    /// The inputs for credentials are empty.
    pub open spec fn nothing_typed(self) -> bool {
        self.auth_username_input.len() == 0 && self.auth_secret_input.len() == 0
    }

    /// How many threads have been asked for.
    pub open spec fn spawns(self) -> nat {
        self.effects.filter(|effect: EffectView| effect is SpawnNetwork).len()
    }

    /// A thread works on the pending request only; the user is asked only while no
    /// thread is at work and attempts are left.
    pub open spec fn network_sound(self) -> bool {
        &&& self.network_auth_attempts <= MAX_AUTH_ATTEMPTS
        &&& self.network_running ==> self.pending_network_request is Some
            && self.pending_auth_prompt is None
        &&& self.pending_auth_prompt is Some ==> self.pending_network_request is Some
            && self.network_auth_attempts < MAX_AUTH_ATTEMPTS
    }

    /// How many more threads the pending request may ask for.
    pub open spec fn attempts_left(self) -> int {
        if self.pending_network_request is Some {
            MAX_AUTH_ATTEMPTS - self.network_auth_attempts
        } else {
            0
        }
    }
}

proof fn lemma_spawns_queue(state: AppView, effect: EffectView)
    ensures
        state.queue(effect).spawns() == state.spawns() + if effect is SpawnNetwork {
            1nat
        } else {
            0nat
        },
{
    let is_spawn = |effect: EffectView| effect is SpawnNetwork;
    state.effects.lemma_filter_push(effect, is_spawn);
}

proof fn lemma_spawns_unhiding(state: AppView, name: Seq<char>)
    ensures
        state.unhiding(name).spawns() == state.spawns(),
{
    if state.hidden_branch_names.contains(name) && state.path is Some {
        let hidden = state.hidden_branch_names.remove(name);
        let shown = AppView { hidden_branch_names: hidden, ..state };
        lemma_spawns_queue(shown, Effect::SaveBranchVisibility { path: state.path->0, hidden });
    }
}

/// Once a request is under way, its state stays sound, a thread is asked for only
/// while none is at work, and every further thread uses up an attempt.
pub proof fn law_each_retry_uses_an_attempt(state: AppView, event: NetworkEvent)
    requires
        state.network_sound(),
    ensures
        state.after_event(event).network_sound(),
        state.after_event(event).spawns() > state.spawns() ==> !state.network_running,
        state.after_event(event).spawns() + state.after_event(event).attempts_left()
            <= state.spawns() + state.attempts_left(),
{
    match event {
        NetworkEvent::Polled(poll) => {
            let stopped = AppView { network_running: false, ..state };
            let rested = stopped.network_at_rest();
            match poll {
                NetworkPoll::Running => {},
                NetworkPoll::Panicked => {
                    lemma_spawns_queue(rested, Effect::ShowError(ErrorText::NetworkPanicked));
                },
                NetworkPoll::Finished(NetworkResult::Success) => {
                    match state.pending_network_request {
                        Some(
                            NetworkRequest::DeleteRemoteBranch { remote_name, branch, .. },
                        ) => {
                            let name = remote_name + "/"@ + branch;
                            lemma_spawns_unhiding(rested, name);
                            lemma_spawns_queue(rested.unhiding(name), Effect::Reload);
                        },
                        _ => {
                            lemma_spawns_queue(rested, Effect::Reload);
                        },
                    }
                },
                NetworkPoll::Finished(NetworkResult::Failure(message)) => {
                    lemma_spawns_queue(rested, Effect::ShowError(ErrorText::Text(message)));
                },
                NetworkPoll::Finished(NetworkResult::AuthRequired { challenge, rejected }) => {
                    let evict = Effect::EvictCredentials { rejected };
                    lemma_spawns_queue(stopped, evict);
                    lemma_spawns_queue(
                        stopped.queue(evict).network_at_rest(),
                        Effect::ShowError(
                            ErrorText::AuthenticationFailed {
                                operation: challenge.operation,
                                attempts: MAX_AUTH_ATTEMPTS,
                            },
                        ),
                    );
                },
            }
        },
        NetworkEvent::Typed { .. } => {},
        NetworkEvent::Submitted => {
            if state.pending_auth_prompt is Some {
                let challenge = state.pending_auth_prompt->0;
                if let Some(secret) = state.typed_secret(challenge) {
                    let store = Effect::StoreCredentials { challenge, secret };
                    let emptied = AppView {
                        pending_auth_prompt: None,
                        auth_username_input: Seq::empty(),
                        auth_secret_input: Seq::empty(),
                        ..state
                    };
                    lemma_spawns_queue(emptied, store);
                    let request = state.pending_network_request->0;
                    let ready = AppView {
                        network_auth_attempts: (state.network_auth_attempts + 1) as usize,
                        modal_network: Some(request),
                        focus: Focus::ModalNetworkProgress,
                        network_running: true,
                        ..emptied.queue(store)
                    };
                    lemma_spawns_queue(ready, Effect::SpawnNetwork(request));
                    assert(state.auth_submitted() == ready.queue(Effect::SpawnNetwork(request)));
                }
            }
        },
        NetworkEvent::Cancelled => {
            if state.pending_auth_prompt is Some {
                lemma_spawns_queue(
                    state.network_at_rest(),
                    Effect::ShowError(
                        ErrorText::AuthCancelled {
                            asked_by: Some(state.pending_auth_prompt->0.operation),
                        },
                    ),
                );
            }
        },
    }
}

proof fn lemma_events_keep_within_attempts(state: AppView, events: Seq<NetworkEvent>)
    requires
        state.network_sound(),
    ensures
        state.after_events(events).network_sound(),
        state.after_events(events).spawns() + state.after_events(events).attempts_left()
            <= state.spawns() + state.attempts_left(),
    decreases events.len(),
{
    if events.len() > 0 {
        lemma_events_keep_within_attempts(state, events.drop_last());
        law_each_retry_uses_an_attempt(state.after_events(events.drop_last()), events.last());
    }
}

/// One request never takes more than one thread to start with and one for each
/// permitted attempt with credentials, whatever the remote and the user do.
pub proof fn law_authentication_attempts_are_bounded(
    state: AppView,
    request: NetworkRequest<Seq<char>>,
    events: Seq<NetworkEvent>,
)
    requires
        !state.network_running,
        state.pending_auth_prompt is None,
    ensures
        state.started(request).network_sound(),
        state.started(request).after_events(events).network_sound(),
        state.started(request).after_events(events).spawns() <= state.spawns() + 1
            + MAX_AUTH_ATTEMPTS,
{
    let ready = AppView {
        pending_network_request: Some(request),
        network_auth_attempts: 0,
        modal_network: Some(request),
        focus: Focus::ModalNetworkProgress,
        network_running: true,
        ..state
    };
    lemma_spawns_queue(ready, Effect::SpawnNetwork(request));
    assert(state.started(request) == ready.queue(Effect::SpawnNetwork(request)));
    lemma_events_keep_within_attempts(state.started(request), events);
}

/// Between `before` and `after` either nothing happened on the network, or one request
/// was started while none was running.
pub open spec fn starts_at_most_one_request(before: AppView, after: AppView) -> bool {
    &&& after.pending_auth_prompt == before.pending_auth_prompt
    &&& if after.effects != before.effects && after.effects.last() is SpawnNetwork {
        &&& !before.network_running
        &&& after.network_running
        &&& after.pending_network_request is Some
        &&& after.network_auth_attempts == 0
    } else {
        &&& after.network_running == before.network_running
        &&& after.pending_network_request == before.pending_network_request
        &&& after.network_auth_attempts == before.network_auth_attempts
    }
}

proof fn lemma_stash_inputs_start_one(state: AppView)
    ensures
        starts_at_most_one_request(state, state.after_drop()),
        starts_at_most_one_request(state, state.after_pop()),
        starts_at_most_one_request(state, state.after_stash()),
{
}

proof fn lemma_search_inputs_start_one(state: AppView)
    ensures
        starts_at_most_one_request(state, state.after_find()),
        starts_at_most_one_request(state, state.after_find_file()),
        starts_at_most_one_request(state, state.after_commit()),
{
}

proof fn lemma_network_inputs_start_one(state: AppView)
    ensures
        starts_at_most_one_request(state, state.after_fetch_all()),
        starts_at_most_one_request(state, state.after_force_push()),
        starts_at_most_one_request(state, state.after_push_tags()),
{
}

proof fn lemma_checkout_inputs_start_one(state: AppView)
    ensures
        starts_at_most_one_request(state, state.after_checkout()),
        starts_at_most_one_request(state, state.after_hard_reset()),
        starts_at_most_one_request(state, state.after_mixed_reset()),
{
}

proof fn lemma_staging_inputs_start_one(state: AppView)
    ensures
        starts_at_most_one_request(state, state.after_unstage()),
        starts_at_most_one_request(state, state.after_stage()),
{
}

proof fn lemma_branch_inputs_start_one(state: AppView)
    ensures
        starts_at_most_one_request(state, state.after_create_branch()),
        starts_at_most_one_request(state, state.after_rename_branch()),
{
}

proof fn lemma_deletion_inputs_start_one(state: AppView)
    ensures
        starts_at_most_one_request(state, state.after_delete_branch()),
{
}

proof fn lemma_tag_inputs_start_one(state: AppView)
    ensures
        starts_at_most_one_request(state, state.after_tag()),
        starts_at_most_one_request(state, state.after_untag()),
{
}

proof fn lemma_commit_inputs_start_one(state: AppView)
    ensures
        starts_at_most_one_request(state, state.after_cherrypick()),
        starts_at_most_one_request(state, state.after_revert()),
{
}

proof fn lemma_operation_inputs_start_one(state: AppView)
    ensures
        starts_at_most_one_request(state, state.after_rebase()),
        starts_at_most_one_request(state, state.after_merge()),
        starts_at_most_one_request(state, state.after_continue_operation()),
        starts_at_most_one_request(state, state.after_abort_operation()),
{
}

/// An input starts at most one request, and only while none is running. As long as no
/// prompt for credentials is open, that keeps the state of the network sound.
pub proof fn law_inputs_start_at_most_one_request(state: AppView, input: Input)
    ensures
        starts_at_most_one_request(state, state.after_input(input)),
        state.network_sound() && state.pending_auth_prompt is None ==> state.after_input(
            input,
        ).network_sound(),
{
    match input {
        Input::Drop | Input::Pop | Input::Stash => {
            lemma_stash_inputs_start_one(state);
        },
        Input::Find | Input::FindFile | Input::Commit => {
            lemma_search_inputs_start_one(state);
        },
        Input::FetchAll | Input::ForcePush | Input::PushTags => {
            lemma_network_inputs_start_one(state);
        },
        Input::Checkout | Input::HardReset | Input::MixedReset => {
            lemma_checkout_inputs_start_one(state);
        },
        Input::Unstage | Input::Stage => {
            lemma_staging_inputs_start_one(state);
        },
        Input::CreateBranch | Input::RenameBranch => {
            lemma_branch_inputs_start_one(state);
        },
        Input::DeleteBranch => {
            lemma_deletion_inputs_start_one(state);
        },
        Input::Tag | Input::Untag => {
            lemma_tag_inputs_start_one(state);
        },
        Input::Cherrypick | Input::Revert => {
            lemma_commit_inputs_start_one(state);
        },
        Input::Rebase | Input::Merge | Input::ContinueOperation | Input::AbortOperation => {
            lemma_operation_inputs_start_one(state);
        },
    }
}

/// A second request is refused while one is running, and leaves it undisturbed.
pub proof fn law_one_request_at_a_time(state: AppView, request: NetworkRequest<Seq<char>>)
    requires
        state.network_running,
    ensures
        state.started(request) == state.report(ErrorText::NetworkAlreadyRunning),
        state.started(request).pending_network_request == state.pending_network_request,
        state.started(request).spawns() == state.spawns(),
{
    lemma_spawns_queue(state, Effect::ShowError(ErrorText::NetworkAlreadyRunning));
}

} // verus!
