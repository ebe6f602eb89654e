use git2::Oid;
use guitar::app::App;
use guitar::effect::{CheckoutOrigin, Effect, GitCommand, ResetMode, StagedFrom};
use guitar::message::{Draft, ErrorText, FailedAction, Subject};
use guitar::names::NameSet;
use guitar::operation::{OperationKind, OperationMessage};
use guitar::panes::{
    CommitInfo, GraphCursor, GraphPaneRow, GraphRow, PaneWindow, Panes, StatusSelection,
};
use guitar::repository::{RepoSnapshot, RepositoryState, SubmoduleEntry};
use guitar::request::NetworkRequest;
use guitar::screen::{AuthInputField, BranchModalAction, Focus, Viewport};
use std::collections::HashMap;

fn s(text: &str) -> String {
    text.to_string()
}

fn names(list: &[&str]) -> Vec<String> {
    list.iter().map(|name| name.to_string()).collect()
}

fn oid(n: u8) -> Oid {
    Oid::from_bytes(&[n; 20]).unwrap()
}

// A repository on branch `main` with the remote `origin`, and row 3 of the graph
// selected, whose commit carries no branch and no tag.
fn app() -> App {
    App {
        repo: Some(RepoSnapshot {
            state: RepositoryState::Clean,
            rebase_in_progress: false,
            cherrypick_in_progress: false,
            revert_in_progress: false,
            merge_in_progress: false,
            current_branch: Some(s("main")),
            default_remote: Some(s("origin")),
            local_branches: names(&["main", "topic"]),
            submodules: Some(Vec::new()),
        }),
        path: Some(s("/repo")),
        viewport: Viewport::Graph,
        panes: Panes {
            cursor: GraphCursor {
                row: Some(GraphRow { oid: oid(3), is_stash: false, tags: Vec::new() }),
                alias: Some(33),
                oid: Some(oid(3)),
                branch_choices: Vec::new(),
                local_branch_choices: Vec::new(),
                commit: Ok(CommitInfo { summary: Some(s("fix it")), parent_count: 1 }),
            },
            branches_window: None,
            branches_sorted: Vec::new(),
            branches_selected: 0,
            tags_window: None,
            tags_sorted: Vec::new(),
            tags_selected: 0,
            tags_local: HashMap::new(),
            sorted_aliases: vec![11, 22, 33],
            selected_branch: None,
            selected_stash: None,
            selected_submodule: None,
            selected_file: None,
            staged_file: StatusSelection { name: None, is_conflict: false },
            unstaged_file: StatusSelection { name: None, is_conflict: false },
            is_staged: false,
            is_unstaged: false,
            reflog_targets: Vec::new(),
            reflogs_selected: 0,
        },
        focus: Focus::Viewport,
        graph_selected: 3,
        hidden_branch_names: NameSet::from_names(Vec::new()),
        network_running: false,
        pending_network_request: None,
        network_auth_attempts: 0,
        pending_auth_prompt: None,
        auth_username_input: String::new(),
        auth_secret_input: String::new(),
        auth_input_field: AuthInputField::Username,
        modal_network: None,
        pending_operation_action: None,
        modal_operation_kind: OperationKind::Rebase,
        modal_operation_message: OperationMessage::Empty,
        pending_branch_target_oid: None,
        pending_cherrypick_oid: None,
        pending_revert_oid: None,
        modal_rename_branch_source: None,
        modal_branch_action: BranchModalAction::Solo,
        modal_solo_selected: 0,
        modal_delete_branch_selected: 0,
        modal_input: Draft::Empty,
        modal_file_search_return_focus: Focus::Viewport,
        modal_file_search_results: Vec::new(),
        modal_file_search_selected: 0,
        modal_file_search_scroll: 0,
        effects: Vec::new(),
    }
}

// What a handler asks for.
fn asked(app: &mut App, handler: fn(&mut App)) -> Vec<Effect> {
    handler(app);
    app.take_effects()
}

fn run(command: GitCommand) -> Vec<Effect> {
    vec![Effect::Run(command)]
}

fn shown(text: ErrorText) -> Vec<Effect> {
    vec![Effect::ShowError(text)]
}

fn failure(action: FailedAction) -> Vec<Effect> {
    shown(ErrorText::Failed { action, cause: s("why") })
}

const HANDLERS: [fn(&mut App); 25] = [
    App::on_drop,
    App::on_pop,
    App::on_stash,
    App::on_find,
    App::on_find_file,
    App::on_fetch_all,
    App::on_checkout,
    App::on_hard_reset,
    App::on_mixed_reset,
    App::on_unstage,
    App::on_stage,
    App::on_commit,
    App::on_force_push,
    App::on_push_tags,
    App::on_create_branch,
    App::on_rename_branch,
    App::on_delete_branch,
    App::on_tag,
    App::on_untag,
    App::on_cherrypick,
    App::on_revert,
    App::on_rebase,
    App::on_merge,
    App::on_continue_operation,
    App::on_abort_operation,
];

#[test]
fn no_input_asks_for_anything_without_a_repository() {
    for handler in HANDLERS {
        let mut app = app();
        app.repo = None;
        app.panes.is_staged = true;
        app.panes.is_unstaged = true;
        assert_eq!(asked(&mut app, handler), Vec::new());
    }
}

#[test]
fn no_input_does_anything_in_the_settings() {
    for handler in HANDLERS {
        let mut app = app();
        app.viewport = Viewport::Settings;
        app.panes.is_staged = true;
        app.panes.is_unstaged = true;
        assert_eq!(asked(&mut app, handler), Vec::new());
        assert_eq!(app.focus, Focus::Viewport);
        assert_eq!(app.pending_operation_action, None);
    }
}

#[test]
fn inputs_ask_for_one_thing_at_most_and_leave_the_selection() {
    for handler in HANDLERS {
        let mut app = app();
        app.panes.is_staged = true;
        app.panes.is_unstaged = true;
        app.effects.push(Effect::Reload);
        app.hidden_branch_names = NameSet::from_names(names(&["topic"]));
        handler(&mut app);
        let effects = app.take_effects();
        assert_eq!(effects[0], Effect::Reload);
        assert!(effects.len() <= 2);
        assert_eq!(app.graph_selected, 3);
        assert_eq!(app.viewport, Viewport::Graph);
        assert_eq!(app.hidden_branch_names.to_names(), names(&["topic"]));
    }
}

#[test]
fn modals_run_no_command() {
    for focus in [Focus::ModalAuth, Focus::ModalCommit, Focus::ModalNetworkProgress, Focus::Other] {
        for handler in HANDLERS {
            let mut app = app();
            app.focus = focus;
            app.panes.is_staged = true;
            app.panes.is_unstaged = true;
            for effect in asked(&mut app, handler) {
                assert!(!matches!(effect, Effect::Run(_) | Effect::CheckoutBranch { .. }));
            }
        }
    }
}

#[test]
fn no_input_starts_a_second_request() {
    for handler in HANDLERS {
        let mut app = app();
        app.on_push_tags();
        let request = app.pending_network_request.clone();
        app.take_effects();
        app.focus = Focus::Viewport;
        app.panes.cursor.branch_choices = names(&["origin/topic"]);
        for effect in asked(&mut app, handler) {
            assert!(!matches!(effect, Effect::SpawnNetwork(_)));
        }
        assert!(app.network_running);
        assert_eq!(app.pending_network_request, request);
    }
}

#[test]
fn row_of_uncommitted_changes_is_no_commit() {
    let on_commits: [fn(&mut App); 10] = [
        App::on_checkout,
        App::on_create_branch,
        App::on_rename_branch,
        App::on_delete_branch,
        App::on_tag,
        App::on_untag,
        App::on_cherrypick,
        App::on_revert,
        App::on_rebase,
        App::on_merge,
    ];
    for handler in on_commits {
        let mut app = app();
        app.graph_selected = 0;
        app.panes.cursor.branch_choices = names(&["topic"]);
        assert_eq!(asked(&mut app, handler), Vec::new());
        assert_eq!(app.focus, Focus::Viewport);
    }
}

#[test]
fn effects_are_handed_over_once_and_in_order() {
    let mut app = app();
    app.on_stash();
    app.on_mixed_reset();
    let reset = GitCommand::Reset { oid: oid(3), mode: ResetMode::Mixed };
    assert_eq!(app.take_effects(), vec![Effect::Run(GitCommand::Stash), Effect::Run(reset)]);
    assert_eq!(app.take_effects(), Vec::new());
}

// Stashes.

#[test]
fn stash_row_of_the_graph_is_dropped_or_popped() {
    let mut app = app();
    assert_eq!(asked(&mut app, App::on_drop), Vec::new());
    assert_eq!(asked(&mut app, App::on_pop), Vec::new());
    app.panes.cursor.row = Some(GraphRow { oid: oid(5), is_stash: true, tags: Vec::new() });
    assert_eq!(asked(&mut app, App::on_drop), run(GitCommand::DropStash { oid: oid(5) }));
    assert_eq!(asked(&mut app, App::on_pop), run(GitCommand::PopStash { oid: oid(5) }));
    app.viewport = Viewport::Viewer;
    assert_eq!(asked(&mut app, App::on_drop), Vec::new());
    app.viewport = Viewport::Graph;
    app.panes.cursor.row = None;
    assert_eq!(asked(&mut app, App::on_pop), Vec::new());
}

#[test]
fn stash_pane_chooses_its_own_stash() {
    let mut app = app();
    app.focus = Focus::Stashes;
    assert_eq!(asked(&mut app, App::on_drop), Vec::new());
    app.panes.selected_stash = Some(oid(6));
    assert_eq!(asked(&mut app, App::on_drop), run(GitCommand::DropStash { oid: oid(6) }));
    assert_eq!(asked(&mut app, App::on_pop), run(GitCommand::PopStash { oid: oid(6) }));
    app.focus = Focus::Branches;
    assert_eq!(asked(&mut app, App::on_drop), Vec::new());
}

#[test]
fn stashing_needs_the_graph() {
    let mut app = app();
    assert_eq!(asked(&mut app, App::on_stash), run(GitCommand::Stash));
    app.focus = Focus::StatusTop;
    assert_eq!(asked(&mut app, App::on_stash), Vec::new());
    app.focus = Focus::Viewport;
    app.viewport = Viewport::Splash;
    assert_eq!(asked(&mut app, App::on_stash), Vec::new());
}

#[test]
fn repository_that_cannot_be_opened_for_a_stash_is_reported() {
    let mut app = app();
    app.stash_repository_failed(s("why"));
    assert_eq!(app.take_effects(), failure(FailedAction::OpenRepository));
}

// Search.

#[test]
fn commit_search_opens_over_the_graph() {
    let mut app = app();
    app.on_find();
    assert_eq!(app.focus, Focus::ModalGrep);
    app.focus = Focus::Inspector;
    app.on_find();
    assert_eq!(app.focus, Focus::Inspector);
}

#[test]
fn file_search_opens_empty_and_remembers_the_pane() {
    for pane in [
        Focus::Viewport,
        Focus::Inspector,
        Focus::StatusTop,
        Focus::StatusBottom,
        Focus::Search,
        Focus::Branches,
        Focus::Tags,
        Focus::Stashes,
        Focus::Reflogs,
        Focus::Worktrees,
        Focus::Submodules,
    ] {
        let mut app = app();
        app.viewport = Viewport::Viewer;
        app.focus = pane;
        app.modal_input = Draft::Text(s("old"));
        app.modal_file_search_results = names(&["old"]);
        app.modal_file_search_selected = 4;
        app.modal_file_search_scroll = 2;
        assert_eq!(asked(&mut app, App::on_find_file), Vec::new());
        assert_eq!(app.focus, Focus::ModalFileSearch);
        assert_eq!(app.modal_file_search_return_focus, pane);
        assert_eq!(app.modal_input, Draft::Empty);
        assert_eq!(app.modal_file_search_results, Vec::<String>::new());
        assert_eq!(app.modal_file_search_selected, 0);
        assert_eq!(app.modal_file_search_scroll, 0);
    }
}

#[test]
fn file_search_does_not_open_elsewhere() {
    for (viewport, focus) in [
        (Viewport::Splash, Focus::Viewport),
        (Viewport::Settings, Focus::Viewport),
        (Viewport::Graph, Focus::ModalCommit),
        (Viewport::Graph, Focus::Other),
    ] {
        let mut app = app();
        app.viewport = viewport;
        app.focus = focus;
        app.on_find_file();
        assert_eq!(app.focus, focus);
    }
}

// Checkout.

#[test]
fn commit_without_branches_is_checked_out_detached() {
    let mut app = app();
    assert_eq!(asked(&mut app, App::on_checkout), run(GitCommand::CheckoutHead { oid: oid(3) }));
    app.panes.cursor.alias = None;
    assert_eq!(asked(&mut app, App::on_checkout), Vec::new());
}

#[test]
fn single_branch_of_a_commit_is_checked_out() {
    let mut app = app();
    app.panes.cursor.branch_choices = names(&["topic"]);
    let origin = CheckoutOrigin::Graph;
    assert_eq!(
        asked(&mut app, App::on_checkout),
        vec![Effect::CheckoutBranch { alias: 33, branch: s("topic"), origin }]
    );
    let hidden = NameSet::from_names(names(&["old"]));
    app.branch_checkout_finished(33, origin, hidden.clone(), Ok(()));
    assert_eq!(app.graph_selected, 3);
    assert_eq!(app.focus, Focus::Viewport);
    assert_eq!(
        app.take_effects(),
        vec![Effect::SaveBranchVisibility { path: s("/repo"), hidden }, Effect::Reload]
    );
    assert_eq!(app.hidden_branch_names.to_names(), names(&["old"]));
}

#[test]
fn several_branches_of_a_commit_are_a_choice() {
    let mut app = app();
    app.panes.cursor.branch_choices = names(&["topic", "origin/topic"]);
    assert_eq!(asked(&mut app, App::on_checkout), Vec::new());
    assert_eq!(app.focus, Focus::ModalCheckout);
}

#[test]
fn branch_pane_checks_out_its_row_and_selects_it() {
    let mut app = app();
    app.focus = Focus::Branches;
    assert_eq!(asked(&mut app, App::on_checkout), Vec::new());
    app.panes.branches_window = Some(PaneWindow {
        start: 0,
        end: 1,
        rows: vec![GraphPaneRow::Branch { alias: 22, name: s("topic"), graph_index: Some(7) }],
    });
    let origin = CheckoutOrigin::Pane { graph_index: Some(7) };
    assert_eq!(
        asked(&mut app, App::on_checkout),
        vec![Effect::CheckoutBranch { alias: 22, branch: s("topic"), origin }]
    );
    app.path = None;
    app.branch_checkout_finished(22, origin, NameSet::from_names(Vec::new()), Ok(()));
    assert_eq!(app.graph_selected, 7);
    assert_eq!(app.focus, Focus::Viewport);
    assert_eq!(app.take_effects(), vec![Effect::Reload]);
}

#[test]
fn row_of_a_listed_branch_is_looked_up() {
    for (alias, row) in [(11, 0), (22, 1), (33, 2), (44, 0)] {
        let mut app = app();
        app.focus = Focus::Branches;
        app.panes.branches_sorted = vec![(alias, s("topic"))];
        let origin = CheckoutOrigin::Pane { graph_index: None };
        assert_eq!(
            asked(&mut app, App::on_checkout),
            vec![Effect::CheckoutBranch { alias, branch: s("topic"), origin }]
        );
        app.branch_checkout_finished(alias, origin, NameSet::from_names(Vec::new()), Ok(()));
        assert_eq!(app.graph_selected, row);
    }
}

#[test]
fn failed_branch_checkout_is_reported() {
    let mut app = app();
    app.focus = Focus::Branches;
    let hidden = NameSet::from_names(names(&["x"]));
    app.branch_checkout_finished(11, CheckoutOrigin::Graph, hidden, Err(s("why")));
    assert_eq!(app.take_effects(), failure(FailedAction::Checkout));
    assert_eq!(app.focus, Focus::Branches);
    assert_eq!(app.graph_selected, 3);
    assert_eq!(app.hidden_branch_names.to_names(), names(&["x"]));
}

// Reset.

#[test]
fn resets_go_to_the_selected_commit() {
    let mut app = app();
    let reset = |mode| run(GitCommand::Reset { oid: oid(3), mode });
    assert_eq!(asked(&mut app, App::on_hard_reset), reset(ResetMode::Hard));
    assert_eq!(asked(&mut app, App::on_mixed_reset), reset(ResetMode::Mixed));
    // Row zero may be reset to if it has an id.
    app.graph_selected = 0;
    assert_eq!(asked(&mut app, App::on_hard_reset), reset(ResetMode::Hard));
    app.panes.cursor.oid = None;
    assert_eq!(asked(&mut app, App::on_hard_reset), Vec::new());
    assert_eq!(asked(&mut app, App::on_mixed_reset), Vec::new());
}

#[test]
fn hard_reset_in_a_status_pane_is_about_the_file() {
    for focus in [Focus::StatusTop, Focus::StatusBottom] {
        let mut app = app();
        app.focus = focus;
        assert_eq!(asked(&mut app, App::on_hard_reset), Vec::new());
        app.panes.selected_file = Some(s("a.rs"));
        let command = GitCommand::ResetFile { path: s("a.rs") };
        assert_eq!(asked(&mut app, App::on_hard_reset), run(command));
        assert_eq!(asked(&mut app, App::on_mixed_reset), Vec::new());
    }
}

#[test]
fn resets_need_the_graph_to_show() {
    let mut app = app();
    app.viewport = Viewport::Viewer;
    assert_eq!(asked(&mut app, App::on_hard_reset), Vec::new());
    assert_eq!(asked(&mut app, App::on_mixed_reset), Vec::new());
}

// Staging.

#[test]
fn viewport_stages_and_unstages_everything() {
    let mut app = app();
    assert_eq!(asked(&mut app, App::on_stage), Vec::new());
    assert_eq!(asked(&mut app, App::on_unstage), Vec::new());
    app.panes.is_unstaged = true;
    assert_eq!(asked(&mut app, App::on_stage), run(GitCommand::StageAll));
    assert_eq!(asked(&mut app, App::on_unstage), Vec::new());
    app.panes.is_staged = true;
    app.viewport = Viewport::Viewer;
    assert_eq!(asked(&mut app, App::on_unstage), run(GitCommand::UnstageAll));
}

#[test]
fn status_panes_stage_and_unstage_the_selected_file() {
    let mut app = app();
    let file = || StatusSelection { name: Some(s("a.rs")), is_conflict: false };
    app.focus = Focus::StatusBottom;
    assert_eq!(asked(&mut app, App::on_stage), Vec::new());
    app.panes.unstaged_file = file();
    assert_eq!(asked(&mut app, App::on_stage), run(GitCommand::StageFile { path: s("a.rs") }));
    assert_eq!(asked(&mut app, App::on_unstage), Vec::new());
    app.focus = Focus::StatusTop;
    assert_eq!(asked(&mut app, App::on_unstage), Vec::new());
    app.panes.staged_file = file();
    assert_eq!(asked(&mut app, App::on_unstage), run(GitCommand::UnstageFile { path: s("a.rs") }));
    assert_eq!(asked(&mut app, App::on_stage), Vec::new());
}

#[test]
fn file_that_is_a_submodule_is_staged_as_one() {
    let mut app = app();
    let file = || StatusSelection { name: Some(s("vendor/a/")), is_conflict: false };
    app.repo.as_mut().unwrap().submodules =
        Some(vec![SubmoduleEntry { path: s("vendor/a"), name: Some(s("a")) }]);
    app.panes.unstaged_file = file();
    app.panes.staged_file = file();
    let from = StagedFrom::Status;
    app.focus = Focus::StatusBottom;
    let stage = GitCommand::StageSubmodule { name: s("a"), from };
    assert_eq!(asked(&mut app, App::on_stage), run(stage));
    app.focus = Focus::StatusTop;
    let unstage = GitCommand::UnstageSubmodule { name: s("a"), from };
    assert_eq!(asked(&mut app, App::on_unstage), run(unstage));
}

#[test]
fn submodule_pane_stages_the_selected_submodule() {
    let mut app = app();
    app.focus = Focus::Submodules;
    assert_eq!(asked(&mut app, App::on_stage), Vec::new());
    assert_eq!(asked(&mut app, App::on_unstage), Vec::new());
    app.panes.selected_submodule = Some(s("a"));
    let from = StagedFrom::SubmodulePane;
    let stage = GitCommand::StageSubmodule { name: s("a"), from };
    assert_eq!(asked(&mut app, App::on_stage), run(stage));
    let unstage = GitCommand::UnstageSubmodule { name: s("a"), from };
    assert_eq!(asked(&mut app, App::on_unstage), run(unstage));
}

#[test]
fn conflicts_are_neither_staged_nor_unstaged() {
    let mut app = app();
    let file = || StatusSelection { name: Some(s("a.rs")), is_conflict: true };
    app.panes.unstaged_file = file();
    app.panes.staged_file = file();
    app.focus = Focus::StatusBottom;
    assert_eq!(asked(&mut app, App::on_stage), shown(ErrorText::StageFileConflict));
    app.focus = Focus::StatusTop;
    assert_eq!(asked(&mut app, App::on_unstage), shown(ErrorText::UnstageFileConflict));
}

#[test]
fn commit_prompt_needs_staged_changes() {
    let mut app = app();
    app.on_commit();
    assert_eq!(app.focus, Focus::Viewport);
    app.panes.is_staged = true;
    app.viewport = Viewport::Viewer;
    app.on_commit();
    assert_eq!(app.focus, Focus::Viewport);
    app.viewport = Viewport::Splash;
    app.on_commit();
    assert_eq!(app.focus, Focus::ModalCommit);
}

// Branches.

#[test]
fn new_branch_points_at_the_selected_commit() {
    let mut app = app();
    app.pending_branch_target_oid = Some(oid(9));
    app.on_create_branch();
    assert_eq!(app.focus, Focus::ModalCreateBranch);
    assert_eq!(app.selected_branch_target_oid(), Some(oid(3)));
    app.graph_selected = 0;
    assert_eq!(app.selected_branch_target_oid(), None);
}

#[test]
fn new_branch_points_at_the_selected_reflog_entry() {
    let mut app = app();
    app.focus = Focus::Reflogs;
    app.panes.reflogs_selected = 1;
    app.on_create_branch();
    assert_eq!(app.focus, Focus::Reflogs);
    app.panes.reflog_targets = vec![oid(1), oid(2)];
    app.on_create_branch();
    assert_eq!(app.focus, Focus::ModalCreateBranch);
    assert_eq!(app.selected_branch_target_oid(), Some(oid(2)));
    app.clear_pending_branch_target();
    assert_eq!(app.selected_branch_target_oid(), Some(oid(3)));
}

#[test]
fn branch_pane_renames_local_branches_only() {
    let mut app = app();
    app.focus = Focus::Branches;
    assert_eq!(asked(&mut app, App::on_rename_branch), Vec::new());
    app.panes.selected_branch = Some(s("origin/topic"));
    let refused = shown(ErrorText::RenameBranchLocalOnly);
    assert_eq!(asked(&mut app, App::on_rename_branch), refused);
    assert_eq!(app.focus, Focus::Branches);
    app.panes.selected_branch = Some(s("topic"));
    assert_eq!(asked(&mut app, App::on_rename_branch), Vec::new());
    assert_eq!(app.focus, Focus::ModalRenameBranch);
    assert_eq!(app.modal_input, Draft::Text(s("topic")));
    assert_eq!(app.modal_rename_branch_source, Some(s("topic")));
}

#[test]
fn graph_renames_the_local_branch_of_the_commit() {
    let mut app = app();
    assert_eq!(asked(&mut app, App::on_rename_branch), Vec::new());
    app.panes.cursor.branch_choices = names(&["origin/topic"]);
    let refused = shown(ErrorText::RenameBranchLocalOnly);
    assert_eq!(asked(&mut app, App::on_rename_branch), refused);
    app.panes.cursor.branch_choices = names(&["origin/topic", "topic"]);
    app.panes.cursor.local_branch_choices = names(&["topic"]);
    assert_eq!(asked(&mut app, App::on_rename_branch), Vec::new());
    assert_eq!(app.focus, Focus::ModalRenameBranch);
    assert_eq!(app.modal_rename_branch_source, Some(s("topic")));
}

#[test]
fn several_local_branches_are_a_choice_of_what_to_rename() {
    let mut app = app();
    app.panes.cursor.branch_choices = names(&["main", "topic"]);
    app.panes.cursor.local_branch_choices = names(&["main", "topic"]);
    app.modal_solo_selected = 5;
    assert_eq!(asked(&mut app, App::on_rename_branch), Vec::new());
    assert_eq!(app.focus, Focus::ModalSolo);
    assert_eq!(app.modal_branch_action, BranchModalAction::Rename);
    assert_eq!(app.modal_solo_selected, 0);
}

#[test]
fn branch_pane_does_not_delete_the_checked_out_branch() {
    let mut app = app();
    app.focus = Focus::Branches;
    app.panes.branches_sorted = vec![(11, s("main")), (22, s("topic"))];
    let refused = shown(ErrorText::DeleteBranchCurrent);
    assert_eq!(asked(&mut app, App::on_delete_branch), refused);
    app.panes.branches_selected = 1;
    let delete = GitCommand::DeleteBranch { branch: s("topic") };
    assert_eq!(asked(&mut app, App::on_delete_branch), run(delete));
    app.repo.as_mut().unwrap().current_branch = None;
    app.panes.branches_selected = 0;
    let delete = GitCommand::DeleteBranch { branch: s("main") };
    assert_eq!(asked(&mut app, App::on_delete_branch), run(delete));
}

#[test]
fn graph_leaves_the_checked_out_branch_out() {
    let mut app = app();
    app.panes.cursor.branch_choices = names(&["main"]);
    assert_eq!(asked(&mut app, App::on_delete_branch), Vec::new());
    app.panes.cursor.branch_choices = names(&["main", "topic"]);
    let delete = GitCommand::DeleteBranch { branch: s("topic") };
    assert_eq!(asked(&mut app, App::on_delete_branch), run(delete));
    app.panes.cursor.branch_choices = names(&["main", "topic", "origin/topic"]);
    assert_eq!(asked(&mut app, App::on_delete_branch), Vec::new());
    assert_eq!(app.focus, Focus::ModalDeleteBranch);
}

#[test]
fn remote_branch_is_deleted_on_its_remote() {
    for (name, remote, branch) in [
        ("fork/feature/x", "fork", "feature/x"),
        ("stray", "origin", "stray"),
    ] {
        let mut app = app();
        app.modal_delete_branch_selected = 2;
        app.delete_branch_from_ui(&s(name));
        let request = NetworkRequest::DeleteRemoteBranch {
            repo_path: s("/repo"),
            remote_name: s(remote),
            branch: s(branch),
        };
        assert_eq!(app.take_effects(), vec![Effect::SpawnNetwork(request)]);
        assert_eq!(app.modal_delete_branch_selected, 0);
        assert_eq!(app.focus, Focus::ModalNetworkProgress);
    }
}

#[test]
fn remote_branch_needs_both_its_parts() {
    for name in ["/x", "x/", "/", ""] {
        let mut app = app();
        app.modal_delete_branch_selected = 2;
        app.delete_branch_from_ui(&s(name));
        assert_eq!(app.take_effects(), shown(ErrorText::DeleteBranchInvalidRemote));
        assert_eq!(app.modal_delete_branch_selected, 2);
    }
}

#[test]
fn deleted_branch_is_no_longer_hidden() {
    let mut app = app();
    app.focus = Focus::ModalDeleteBranch;
    app.modal_delete_branch_selected = 2;
    app.hidden_branch_names = NameSet::from_names(names(&["topic", "other"]));
    app.command_finished(GitCommand::DeleteBranch { branch: s("topic") }, Ok(()));
    let hidden = NameSet::from_names(names(&["other"]));
    assert_eq!(
        app.take_effects(),
        vec![Effect::SaveBranchVisibility { path: s("/repo"), hidden }, Effect::Reload]
    );
    assert_eq!(app.hidden_branch_names.to_names(), names(&["other"]));
    assert_eq!(app.focus, Focus::Viewport);
    assert_eq!(app.modal_delete_branch_selected, 0);
    // One that was not hidden leaves the list as it is.
    app.command_finished(GitCommand::DeleteBranch { branch: s("third") }, Ok(()));
    assert_eq!(app.take_effects(), vec![Effect::Reload]);
}

// Tags.

#[test]
fn tag_prompt_needs_a_selected_commit() {
    let mut app = app();
    app.on_tag();
    assert_eq!(app.focus, Focus::ModalTag);
    app.focus = Focus::Tags;
    app.on_tag();
    assert_eq!(app.focus, Focus::Tags);
}

#[test]
fn tag_pane_deletes_its_tag() {
    let mut app = app();
    app.focus = Focus::Tags;
    assert_eq!(asked(&mut app, App::on_untag), Vec::new());
    app.panes.tags_sorted = vec![(11, s("v1"))];
    assert_eq!(asked(&mut app, App::on_untag), run(GitCommand::DeleteTag { tag: s("v1") }));
}

#[test]
fn graph_deletes_the_only_tag_and_asks_about_several() {
    let mut app = app();
    assert_eq!(asked(&mut app, App::on_untag), Vec::new());
    app.panes.cursor.row.as_mut().unwrap().tags = names(&["v1"]);
    assert_eq!(asked(&mut app, App::on_untag), run(GitCommand::DeleteTag { tag: s("v1") }));
    app.panes.cursor.row = None;
    app.panes.tags_local.insert(33, names(&["v2"]));
    assert_eq!(asked(&mut app, App::on_untag), run(GitCommand::DeleteTag { tag: s("v2") }));
    app.panes.tags_local.insert(33, names(&["v2", "v3"]));
    assert_eq!(asked(&mut app, App::on_untag), Vec::new());
    assert_eq!(app.focus, Focus::ModalDeleteTag);
}

// Cherry-pick and revert.

#[test]
fn cherrypick_prompt_proposes_a_message() {
    let mut app = app();
    assert_eq!(asked(&mut app, App::on_cherrypick), Vec::new());
    assert_eq!(app.focus, Focus::ModalCherrypick);
    assert_eq!(app.pending_cherrypick_oid, Some(oid(3)));
    assert_eq!(app.modal_input, Draft::Cherrypicked(Subject::Line(s("fix it"))));
}

#[test]
fn revert_prompt_proposes_a_message() {
    let mut app = app();
    app.panes.cursor.commit = Ok(CommitInfo { summary: None, parent_count: 0 });
    assert_eq!(asked(&mut app, App::on_revert), Vec::new());
    assert_eq!(app.focus, Focus::ModalRevert);
    assert_eq!(app.pending_revert_oid, Some(oid(3)));
    assert_eq!(app.modal_input, Draft::Reverted(Subject::Missing));
}

#[test]
fn merges_are_not_reverted() {
    let mut app = app();
    app.panes.cursor.commit = Ok(CommitInfo { summary: Some(s("merge")), parent_count: 2 });
    assert_eq!(asked(&mut app, App::on_revert), shown(ErrorText::RevertMergeUnsupported));
    assert_eq!(app.focus, Focus::Viewport);
    assert_eq!(app.pending_revert_oid, None);
    // They may be cherry-picked.
    assert_eq!(asked(&mut app, App::on_cherrypick), Vec::new());
    assert_eq!(app.focus, Focus::ModalCherrypick);
}

#[test]
fn commit_that_cannot_be_read_is_reported() {
    let mut app = app();
    app.panes.cursor.commit = Err(s("why"));
    assert_eq!(asked(&mut app, App::on_cherrypick), failure(FailedAction::Cherrypick));
    assert_eq!(asked(&mut app, App::on_revert), failure(FailedAction::Revert));
    assert_eq!(app.focus, Focus::Viewport);
}

// The end of commands.

fn commands() -> Vec<(GitCommand, FailedAction)> {
    let from = StagedFrom::Status;
    vec![
        (GitCommand::DropStash { oid: oid(1) }, FailedAction::DropStash),
        (GitCommand::PopStash { oid: oid(1) }, FailedAction::PopStash),
        (GitCommand::Stash, FailedAction::Stash),
        (GitCommand::CheckoutHead { oid: oid(1) }, FailedAction::Checkout),
        (GitCommand::Reset { oid: oid(1), mode: ResetMode::Hard }, FailedAction::HardReset),
        (GitCommand::Reset { oid: oid(1), mode: ResetMode::Mixed }, FailedAction::MixedReset),
        (GitCommand::ResetFile { path: s("a") }, FailedAction::ResetFile),
        (GitCommand::StageAll, FailedAction::StageAll),
        (GitCommand::StageFile { path: s("a") }, FailedAction::StageFile),
        (GitCommand::StageSubmodule { name: s("a"), from }, FailedAction::StageSubmodule),
        (GitCommand::UnstageAll, FailedAction::UnstageAll),
        (GitCommand::UnstageFile { path: s("a") }, FailedAction::UnstageFile),
        (GitCommand::UnstageSubmodule { name: s("a"), from }, FailedAction::UnstageSubmodule),
        (GitCommand::DeleteBranch { branch: s("a") }, FailedAction::DeleteBranch),
        (GitCommand::DeleteTag { tag: s("a") }, FailedAction::DeleteTag),
    ]
}

#[test]
fn only_stash_commands_need_a_fresh_repository() {
    for (command, action) in commands() {
        let stash = matches!(
            action,
            FailedAction::DropStash | FailedAction::PopStash | FailedAction::Stash
        );
        assert_eq!(command.needs_fresh_repository(), stash);
        assert_eq!(command.failed_action(), action);
    }
}

#[test]
fn command_that_failed_is_only_reported() {
    for (command, action) in commands() {
        let mut app = app();
        app.focus = Focus::StatusTop;
        app.hidden_branch_names = NameSet::from_names(names(&["a"]));
        app.command_finished(command, Err(s("why")));
        assert_eq!(app.take_effects(), failure(action));
        assert_eq!(app.focus, Focus::StatusTop);
        assert_eq!(app.hidden_branch_names.to_names(), names(&["a"]));
    }
}

#[test]
fn command_that_went_through_reloads() {
    for (command, action) in commands() {
        let mut app = app();
        app.focus = Focus::StatusTop;
        app.command_finished(command, Ok(()));
        let effects = app.take_effects();
        let moved = matches!(
            action,
            FailedAction::Checkout
                | FailedAction::HardReset
                | FailedAction::MixedReset
                | FailedAction::DeleteBranch
        );
        assert_eq!(app.focus, if moved { Focus::Viewport } else { Focus::StatusTop });
        if matches!(action, FailedAction::HardReset | FailedAction::MixedReset) {
            assert_eq!(effects, vec![Effect::Reload, Effect::Focus(Focus::Viewport)]);
        } else {
            assert_eq!(effects, vec![Effect::Reload]);
        }
    }
}

#[test]
fn submodule_pane_keeps_the_focus() {
    let from = StagedFrom::SubmodulePane;
    for command in [
        GitCommand::StageSubmodule { name: s("a"), from },
        GitCommand::UnstageSubmodule { name: s("a"), from },
    ] {
        let mut app = app();
        app.command_finished(command, Ok(()));
        assert_eq!(app.take_effects(), vec![Effect::Reload]);
        assert_eq!(app.focus, Focus::Submodules);
    }
}
