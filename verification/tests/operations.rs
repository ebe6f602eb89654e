use git2::Oid;
use guitar::app::App;
use guitar::effect::{Effect, OperationStep};
use guitar::input::network::MAX_AUTH_ATTEMPTS;
use guitar::message::{Draft, ErrorText, FailedAction, RemoteOperation};
use guitar::names::NameSet;
use guitar::operation::{
    CherrypickOutcome, MergeOutcome, OperationKind, OperationMessage, PendingOperationAction,
    RebaseOutcome, RevertOutcome,
};
use guitar::panes::{CommitInfo, GraphCursor, GraphRow, Panes, StatusSelection};
use guitar::repository::{RepoSnapshot, RepositoryState};
use guitar::request::{
    AuthChallenge, AuthProtocol, AuthSecret, NetworkPoll, NetworkRequest, NetworkResult,
};
use guitar::screen::{AuthInputField, BranchModalAction, Focus, Viewport};
use std::collections::HashMap;

fn s(text: &str) -> String {
    text.to_string()
}

fn names(list: &[&str]) -> Vec<String> {
    list.iter().map(|name| name.to_string()).collect()
}

fn oid(n: u8) -> Oid {
    Oid::from_bytes(&[n; 20]).unwrap()
}

// A repository on branch `main` with the remote `origin`, and row 3 of the graph
// selected, whose commit carries no branch and no tag.
fn app() -> App {
    App {
        repo: Some(RepoSnapshot {
            state: RepositoryState::Clean,
            rebase_in_progress: false,
            cherrypick_in_progress: false,
            revert_in_progress: false,
            merge_in_progress: false,
            current_branch: Some(s("main")),
            default_remote: Some(s("origin")),
            local_branches: names(&["main", "topic"]),
            submodules: Some(Vec::new()),
        }),
        path: Some(s("/repo")),
        viewport: Viewport::Graph,
        panes: Panes {
            cursor: GraphCursor {
                row: Some(GraphRow { oid: oid(3), is_stash: false, tags: Vec::new() }),
                alias: Some(33),
                oid: Some(oid(3)),
                branch_choices: Vec::new(),
                local_branch_choices: Vec::new(),
                commit: Ok(CommitInfo { summary: Some(s("fix it")), parent_count: 1 }),
            },
            branches_window: None,
            branches_sorted: Vec::new(),
            branches_selected: 0,
            tags_window: None,
            tags_sorted: Vec::new(),
            tags_selected: 0,
            tags_local: HashMap::new(),
            sorted_aliases: vec![11, 22, 33],
            selected_branch: None,
            selected_stash: None,
            selected_submodule: None,
            selected_file: None,
            staged_file: StatusSelection { name: None, is_conflict: false },
            unstaged_file: StatusSelection { name: None, is_conflict: false },
            is_staged: false,
            is_unstaged: false,
            reflog_targets: Vec::new(),
            reflogs_selected: 0,
        },
        focus: Focus::Viewport,
        graph_selected: 3,
        hidden_branch_names: NameSet::from_names(Vec::new()),
        network_running: false,
        pending_network_request: None,
        network_auth_attempts: 0,
        pending_auth_prompt: None,
        auth_username_input: String::new(),
        auth_secret_input: String::new(),
        auth_input_field: AuthInputField::Username,
        modal_network: None,
        pending_operation_action: None,
        modal_operation_kind: OperationKind::Rebase,
        modal_operation_message: OperationMessage::Empty,
        pending_branch_target_oid: None,
        pending_cherrypick_oid: None,
        pending_revert_oid: None,
        modal_rename_branch_source: None,
        modal_branch_action: BranchModalAction::Solo,
        modal_solo_selected: 0,
        modal_delete_branch_selected: 0,
        modal_input: Draft::Empty,
        modal_file_search_return_focus: Focus::Viewport,
        modal_file_search_results: Vec::new(),
        modal_file_search_selected: 0,
        modal_file_search_scroll: 0,
        effects: Vec::new(),
    }
}

fn shown(text: ErrorText) -> Vec<Effect> {
    vec![Effect::ShowError(text)]
}

fn in_state(state: RepositoryState) -> App {
    let mut app = app();
    app.repo.as_mut().unwrap().state = state;
    app
}

// Starting, continuing and aborting.

#[test]
fn rebase_and_merge_start_with_the_selected_commit() {
    let cases: [(fn(&mut App), OperationKind, OperationMessage); 2] = [
        (App::on_rebase, OperationKind::Rebase, OperationMessage::RebasingSelectedCommit),
        (App::on_merge, OperationKind::Merge, OperationMessage::MergingSelectedCommit),
    ];
    for (handler, kind, message) in cases {
        let mut app = app();
        app.modal_operation_kind = OperationKind::Revert;
        handler(&mut app);
        let start = PendingOperationAction::Start { kind, oid: oid(3) };
        assert_eq!(app.pending_operation_action, Some(start));
        assert_eq!(app.modal_operation_kind, kind);
        assert_eq!(app.modal_operation_message, message);
        assert_eq!(app.focus, Focus::ModalOperationProgress);
        assert_eq!(app.take_effects(), Vec::new());
    }
}

#[test]
fn operations_need_the_viewport() {
    for (viewport, focus) in [
        (Viewport::Viewer, Focus::Viewport),
        (Viewport::Settings, Focus::Viewport),
        (Viewport::Splash, Focus::Viewport),
        (Viewport::Graph, Focus::Branches),
    ] {
        let handlers: [fn(&mut App); 2] = [App::on_rebase, App::on_merge];
        for handler in handlers {
            let mut app = app();
            app.viewport = viewport;
            app.focus = focus;
            handler(&mut app);
            assert_eq!(app.pending_operation_action, None);
            assert_eq!(app.focus, focus);
        }
    }
}

#[test]
fn busy_repository_goes_on_instead() {
    let handlers: [fn(&mut App); 4] =
        [App::on_rebase, App::on_merge, App::on_revert, App::on_continue_operation];
    for handler in handlers {
        let mut app = in_state(RepositoryState::CherryPick);
        app.repo.as_mut().unwrap().cherrypick_in_progress = true;
        app.viewport = Viewport::Splash;
        handler(&mut app);
        assert_eq!(app.pending_operation_action, Some(PendingOperationAction::Continue));
        let kind = OperationKind::Cherrypick;
        assert_eq!(app.modal_operation_kind, kind);
        assert_eq!(app.modal_operation_message, OperationMessage::Continuing { kind });
        assert_eq!(app.focus, Focus::ModalOperationProgress);
    }
}

#[test]
fn busy_repository_without_a_known_operation_does_nothing() {
    let handlers: [fn(&mut App); 2] = [App::on_rebase, App::on_merge];
    for handler in handlers {
        let mut app = app();
        app.repo.as_mut().unwrap().merge_in_progress = true;
        handler(&mut app);
        assert_eq!(app.pending_operation_action, None);
        assert_eq!(app.focus, Focus::Viewport);
    }
}

#[test]
fn operation_in_progress_can_be_given_up() {
    let mut app = in_state(RepositoryState::RebaseMerge);
    app.on_abort_operation();
    let kind = OperationKind::Rebase;
    assert_eq!(app.pending_operation_action, Some(PendingOperationAction::Abort));
    assert_eq!(app.modal_operation_kind, kind);
    assert_eq!(app.modal_operation_message, OperationMessage::Aborting { kind });
    assert_eq!(app.focus, Focus::ModalOperationProgress);
}

#[test]
fn nothing_in_progress_is_neither_continued_nor_given_up() {
    for state in [RepositoryState::Clean, RepositoryState::Bisect, RepositoryState::ApplyMailbox] {
        let mut app = in_state(state);
        app.on_continue_operation();
        app.on_abort_operation();
        assert_eq!(app.pending_operation_action, None);
        assert_eq!(app.focus, Focus::Viewport);
    }
}

#[test]
fn operation_kind_is_read_off_the_state() {
    let app = in_state(RepositoryState::ApplyMailboxOrRebase);
    let repo = app.repo.unwrap();
    assert_eq!(App::active_operation_kind(&repo), Some(OperationKind::Rebase));
}

// Taking up what was confirmed.

#[test]
fn confirmed_step_is_taken_up_once() {
    let mut app = app();
    app.run_pending_operation_action();
    assert_eq!(app.take_effects(), Vec::new());
    app.pending_operation_action = Some(PendingOperationAction::Abort);
    app.run_pending_operation_action();
    let open = Effect::OpenForOperation(PendingOperationAction::Abort);
    assert_eq!(app.take_effects(), vec![open]);
    assert_eq!(app.pending_operation_action, None);
    app.run_pending_operation_action();
    assert_eq!(app.take_effects(), Vec::new());
}

#[test]
fn confirmed_step_needs_a_repository() {
    let mut app = app();
    app.repo = None;
    app.focus = Focus::ModalOperationProgress;
    app.pending_operation_action = Some(PendingOperationAction::Continue);
    app.run_pending_operation_action();
    assert_eq!(app.take_effects(), shown(ErrorText::OperationNoRepository));
    assert_eq!(app.focus, Focus::Viewport);
    assert_eq!(app.pending_operation_action, None);
}

#[test]
fn repository_that_cannot_be_opened_is_reported() {
    let mut app = app();
    app.focus = Focus::ModalOperationProgress;
    app.operation_repository_opened(PendingOperationAction::Continue, Err(s("why")));
    let action = FailedAction::OpenRepository;
    assert_eq!(app.take_effects(), shown(ErrorText::Failed { action, cause: s("why") }));
    assert_eq!(app.focus, Focus::Viewport);
}

fn opened(action: PendingOperationAction, state: RepositoryState) -> (Vec<Effect>, Focus) {
    let mut app = app();
    app.focus = Focus::ModalOperationProgress;
    app.operation_repository_opened(action, Ok(state));
    (app.take_effects(), app.focus)
}

#[test]
fn opened_repository_starts_the_operation() {
    let start = |kind| opened(PendingOperationAction::Start { kind, oid: oid(4) }, RepositoryState::Clean);
    let step = |step| (vec![Effect::Operate(step)], Focus::ModalOperationProgress);
    let refused = |text| (shown(text), Focus::Viewport);
    assert_eq!(start(OperationKind::Rebase), step(OperationStep::StartRebase { oid: oid(4) }));
    assert_eq!(start(OperationKind::Merge), step(OperationStep::StartMerge { oid: oid(4) }));
    assert_eq!(start(OperationKind::Cherrypick), refused(ErrorText::CherrypickNoMessage));
    assert_eq!(start(OperationKind::Revert), refused(ErrorText::RevertNoMessage));
}

#[test]
fn opened_repository_decides_what_goes_on() {
    for (state, kind) in [
        (RepositoryState::RebaseInteractive, OperationKind::Rebase),
        (RepositoryState::CherryPickSequence, OperationKind::Cherrypick),
        (RepositoryState::RevertSequence, OperationKind::Revert),
        (RepositoryState::Merge, OperationKind::Merge),
    ] {
        assert_eq!(
            opened(PendingOperationAction::Continue, state),
            (vec![Effect::Operate(OperationStep::Continue { kind })], Focus::ModalOperationProgress)
        );
        assert_eq!(
            opened(PendingOperationAction::Abort, state),
            (vec![Effect::Operate(OperationStep::Abort { kind })], Focus::ModalOperationProgress)
        );
    }
    assert_eq!(
        opened(PendingOperationAction::Continue, RepositoryState::Clean),
        (shown(ErrorText::ContinueNoOperation), Focus::Viewport)
    );
    assert_eq!(
        opened(PendingOperationAction::Abort, RepositoryState::Clean),
        (shown(ErrorText::AbortNoOperation), Focus::Viewport)
    );
}

#[test]
fn selected_commit_is_the_one_that_is_rebased_onto() {
    let mut app = app();
    app.on_rebase();
    // The selection moves on before the step is taken up.
    app.graph_selected = 1;
    app.panes.cursor.oid = Some(oid(1));
    app.run_pending_operation_action();
    let start = PendingOperationAction::Start { kind: OperationKind::Rebase, oid: oid(3) };
    assert_eq!(app.take_effects(), vec![Effect::OpenForOperation(start)]);
    app.operation_repository_opened(start, Ok(RepositoryState::Clean));
    let step = OperationStep::StartRebase { oid: oid(3) };
    assert_eq!(app.take_effects(), vec![Effect::Operate(step)]);
}

#[test]
fn operation_in_progress_is_the_one_that_goes_on() {
    let mut app = in_state(RepositoryState::Merge);
    app.on_continue_operation();
    app.run_pending_operation_action();
    let action = PendingOperationAction::Continue;
    assert_eq!(app.take_effects(), vec![Effect::OpenForOperation(action)]);
    app.operation_repository_opened(action, Ok(RepositoryState::Merge));
    let step = OperationStep::Continue { kind: OperationKind::Merge };
    assert_eq!(app.take_effects(), vec![Effect::Operate(step)]);
    assert_eq!(app.modal_operation_kind, OperationKind::Merge);
}

#[test]
fn steps_know_their_operation() {
    for kind in [
        OperationKind::Rebase,
        OperationKind::Merge,
        OperationKind::Cherrypick,
        OperationKind::Revert,
    ] {
        assert_eq!(OperationStep::Continue { kind }.kind(), kind);
        assert_eq!(OperationStep::Abort { kind }.kind(), kind);
    }
    assert_eq!(OperationStep::StartRebase { oid: oid(1) }.kind(), OperationKind::Rebase);
    assert_eq!(OperationStep::StartMerge { oid: oid(1) }.kind(), OperationKind::Merge);
}

// Outcomes.

fn check_outcome(app: &mut App, kind: OperationKind, message: OperationMessage, focus: Focus) {
    assert_eq!(app.modal_operation_kind, kind);
    assert_eq!(app.modal_operation_message, message);
    assert_eq!(app.focus, focus);
    assert_eq!(app.take_effects(), vec![Effect::Reload]);
}

fn check_failure(app: &mut App, kind: OperationKind, action: FailedAction) {
    assert_eq!(app.modal_operation_kind, kind);
    assert_eq!(app.modal_operation_message, OperationMessage::Empty);
    assert_eq!(app.focus, Focus::Viewport);
    let error = Effect::ShowError(ErrorText::Failed { action, cause: s("why") });
    assert_eq!(app.take_effects(), vec![error, Effect::Reload]);
}

#[test]
fn rebase_outcomes_are_shown() {
    let kind = OperationKind::Rebase;
    for (outcome, message, focus) in [
        (
            RebaseOutcome::Completed { applied: 4 },
            OperationMessage::RebaseCompleted { applied: 4 },
            Focus::ModalOperationSuccess,
        ),
        (
            RebaseOutcome::Conflict,
            OperationMessage::RebaseConflict,
            Focus::ModalOperationConflict,
        ),
        (RebaseOutcome::Aborted, OperationMessage::RebaseAborted, Focus::ModalOperationSuccess),
    ] {
        let mut app = app();
        app.handle_rebase_result(Ok(outcome));
        check_outcome(&mut app, kind, message, focus);
        app.handle_rebase_result(Err(s("why")));
        check_failure(&mut app, kind, FailedAction::Rebase);
    }
}

#[test]
fn cherrypick_outcomes_are_shown() {
    let kind = OperationKind::Cherrypick;
    for (outcome, message, focus) in [
        (
            CherrypickOutcome::Committed,
            OperationMessage::CherrypickCompleted,
            Focus::ModalOperationSuccess,
        ),
        (
            CherrypickOutcome::Conflict,
            OperationMessage::CherrypickConflict,
            Focus::ModalOperationConflict,
        ),
        (
            CherrypickOutcome::Aborted,
            OperationMessage::CherrypickAborted,
            Focus::ModalOperationSuccess,
        ),
    ] {
        let mut app = app();
        app.handle_cherrypick_result(Ok(outcome));
        check_outcome(&mut app, kind, message, focus);
        app.handle_cherrypick_result(Err(s("why")));
        check_failure(&mut app, kind, FailedAction::Cherrypick);
    }
}

#[test]
fn revert_outcomes_are_shown() {
    let kind = OperationKind::Revert;
    for (outcome, message, focus) in [
        (
            RevertOutcome::Committed,
            OperationMessage::RevertCompleted,
            Focus::ModalOperationSuccess,
        ),
        (
            RevertOutcome::Conflict,
            OperationMessage::RevertConflict,
            Focus::ModalOperationConflict,
        ),
        (RevertOutcome::Aborted, OperationMessage::RevertAborted, Focus::ModalOperationSuccess),
    ] {
        let mut app = app();
        app.handle_revert_result(Ok(outcome));
        check_outcome(&mut app, kind, message, focus);
        app.handle_revert_result(Err(s("why")));
        check_failure(&mut app, kind, FailedAction::Revert);
    }
}

#[test]
fn merge_outcomes_are_shown() {
    let kind = OperationKind::Merge;
    for (outcome, message, focus) in [
        (MergeOutcome::Completed, OperationMessage::MergeCompleted, Focus::ModalOperationSuccess),
        (
            MergeOutcome::FastForward,
            OperationMessage::MergeFastForwarded,
            Focus::ModalOperationSuccess,
        ),
        (
            MergeOutcome::UpToDate,
            OperationMessage::MergeAlreadyUpToDate,
            Focus::ModalOperationSuccess,
        ),
        (MergeOutcome::Conflict, OperationMessage::MergeConflict, Focus::ModalOperationConflict),
        (MergeOutcome::Aborted, OperationMessage::MergeAborted, Focus::ModalOperationSuccess),
    ] {
        let mut app = app();
        app.handle_merge_result(Ok(outcome));
        check_outcome(&mut app, kind, message, focus);
        app.handle_merge_result(Err(s("why")));
        check_failure(&mut app, kind, FailedAction::Merge);
    }
}

#[test]
fn conflict_can_be_shown_with_a_text_of_ones_own() {
    let mut app = app();
    app.show_operation_conflict(OperationKind::Merge, OperationMessage::Text(s("look")));
    check_outcome(
        &mut app,
        OperationKind::Merge,
        OperationMessage::Text(s("look")),
        Focus::ModalOperationConflict,
    );
}

// The network.

fn fetch() -> NetworkRequest {
    NetworkRequest::Fetch { repo_path: s("/repo"), remote_name: s("origin") }
}

fn challenge(protocol: AuthProtocol, username: Option<&str>) -> AuthChallenge {
    AuthChallenge {
        operation: s("Fetch"),
        protocol,
        username: username.map(|name| name.to_string()),
    }
}

fn refused(challenge: AuthChallenge) -> NetworkPoll {
    NetworkPoll::Finished(NetworkResult::AuthRequired { challenge, rejected: names(&["key"]) })
}

fn fetching() -> App {
    let mut app = app();
    app.start_network_request(fetch());
    assert_eq!(app.take_effects(), vec![Effect::SpawnNetwork(fetch())]);
    app
}

fn check_at_rest(app: &App) {
    assert_eq!(app.pending_network_request, None);
    assert_eq!(app.network_auth_attempts, 0);
    assert_eq!(app.pending_auth_prompt, None);
    assert_eq!(app.auth_username_input, "");
    assert_eq!(app.auth_secret_input, "");
    assert_eq!(app.modal_network, None);
    assert_eq!(app.focus, Focus::Viewport);
    assert!(!app.network_running);
}

#[test]
fn fetch_goes_to_the_default_remote() {
    for viewport in [Viewport::Graph, Viewport::Viewer, Viewport::Splash] {
        let mut app = app();
        app.viewport = viewport;
        app.network_auth_attempts = 2;
        app.on_fetch_all();
        assert_eq!(app.take_effects(), vec![Effect::SpawnNetwork(fetch())]);
        assert!(app.network_running);
        assert_eq!(app.pending_network_request, Some(fetch()));
        assert_eq!(app.modal_network, Some(fetch()));
        assert_eq!(app.network_auth_attempts, 0);
        assert_eq!(app.focus, Focus::ModalNetworkProgress);
    }
}

#[test]
fn pushes_go_to_the_default_remote() {
    let mut app = app();
    app.path = None;
    app.on_force_push();
    let push = NetworkRequest::PushBranch {
        repo_path: s("."),
        remote_name: s("origin"),
        branch: s("main"),
        force: true,
    };
    assert_eq!(app.take_effects(), vec![Effect::SpawnNetwork(push)]);
    app.network_running = false;
    app.on_push_tags();
    let push = NetworkRequest::PushTags { repo_path: s("."), remote_name: s("origin") };
    assert_eq!(app.take_effects(), vec![Effect::SpawnNetwork(push)]);
}

#[test]
fn pushes_do_not_start_from_the_viewer() {
    let mut app = app();
    app.viewport = Viewport::Viewer;
    app.on_force_push();
    app.on_push_tags();
    assert_eq!(app.take_effects(), Vec::new());
}

#[test]
fn missing_remote_is_reported() {
    let cases: [(fn(&mut App), RemoteOperation); 3] = [
        (App::on_fetch_all, RemoteOperation::Fetch),
        (App::on_force_push, RemoteOperation::Push),
        (App::on_push_tags, RemoteOperation::PushTags),
    ];
    for (handler, needed_for) in cases {
        let mut app = app();
        app.repo.as_mut().unwrap().default_remote = None;
        handler(&mut app);
        assert_eq!(app.take_effects(), shown(ErrorText::NoRemotesConfigured { needed_for }));
        assert_eq!(app.focus, Focus::Viewport);
    }
}

#[test]
fn detached_head_is_not_pushed() {
    let mut app = app();
    app.repo.as_mut().unwrap().current_branch = None;
    app.repo.as_mut().unwrap().default_remote = None;
    app.on_force_push();
    assert_eq!(app.take_effects(), shown(ErrorText::PushDetachedHead));
}

#[test]
fn second_request_is_refused_while_one_runs() {
    let mut app = fetching();
    app.on_push_tags();
    assert_eq!(app.take_effects(), shown(ErrorText::NetworkAlreadyRunning));
    assert_eq!(app.pending_network_request, Some(fetch()));
    assert!(app.network_running);
}

#[test]
fn polling_without_news_changes_nothing() {
    let mut app = app();
    app.poll_network_request(NetworkPoll::Panicked);
    app.poll_network_request(NetworkPoll::Finished(NetworkResult::Success));
    assert_eq!(app.take_effects(), Vec::new());
    let mut app = fetching();
    app.poll_network_request(NetworkPoll::Running);
    assert_eq!(app.take_effects(), Vec::new());
    assert!(app.network_running);
    assert_eq!(app.focus, Focus::ModalNetworkProgress);
}

#[test]
fn request_that_worked_reloads() {
    let mut app = fetching();
    app.poll_network_request(NetworkPoll::Finished(NetworkResult::Success));
    assert_eq!(app.take_effects(), vec![Effect::Reload]);
    check_at_rest(&app);
}

#[test]
fn request_that_failed_is_reported() {
    let mut app = fetching();
    app.poll_network_request(NetworkPoll::Finished(NetworkResult::Failure(s("timeout"))));
    assert_eq!(app.take_effects(), shown(ErrorText::Text(s("timeout"))));
    check_at_rest(&app);
}

#[test]
fn thread_that_panicked_is_reported() {
    let mut app = fetching();
    app.poll_network_request(NetworkPoll::Panicked);
    assert_eq!(app.take_effects(), shown(ErrorText::NetworkPanicked));
    check_at_rest(&app);
}

#[test]
fn deleted_remote_branch_is_no_longer_hidden() {
    let mut app = app();
    app.hidden_branch_names = NameSet::from_names(names(&["fork/feature/x", "other"]));
    app.delete_branch_from_ui(&s("fork/feature/x"));
    app.take_effects();
    app.poll_network_request(NetworkPoll::Finished(NetworkResult::Success));
    let hidden = NameSet::from_names(names(&["other"]));
    assert_eq!(
        app.take_effects(),
        vec![Effect::SaveBranchVisibility { path: s("/repo"), hidden }, Effect::Reload]
    );
    assert_eq!(app.hidden_branch_names.to_names(), names(&["other"]));
    check_at_rest(&app);
}

#[test]
fn prompt_opens_on_the_first_empty_field() {
    for (protocol, username, field) in [
        (AuthProtocol::Https, None, AuthInputField::Username),
        (AuthProtocol::Http, Some(""), AuthInputField::Username),
        (AuthProtocol::Https, Some("me"), AuthInputField::Secret),
        (AuthProtocol::Ssh, None, AuthInputField::Secret),
        (AuthProtocol::Ssh, Some("git"), AuthInputField::Secret),
    ] {
        let mut app = fetching();
        app.auth_secret_input = s("old");
        app.poll_network_request(refused(challenge(protocol, username)));
        assert_eq!(
            app.take_effects(),
            vec![Effect::EvictCredentials { rejected: names(&["key"]) }]
        );
        assert_eq!(app.pending_auth_prompt, Some(challenge(protocol, username)));
        assert_eq!(app.auth_username_input, username.unwrap_or(""));
        assert_eq!(app.auth_secret_input, "");
        assert_eq!(app.auth_input_field, field);
        assert_eq!(app.focus, Focus::ModalAuth);
        assert!(!app.network_running);
        assert_eq!(app.pending_network_request, Some(fetch()));
    }
}

#[test]
fn password_is_stored_and_the_request_tried_again() {
    let mut app = fetching();
    let challenge = challenge(AuthProtocol::Https, None);
    app.poll_network_request(refused(challenge.clone()));
    app.take_effects();
    app.auth_username_input = s("  me ");
    app.auth_secret_input = s(" pw ");
    app.submit_auth_prompt();
    let secret = AuthSecret::Https { username: s("me"), password: s(" pw ") };
    assert_eq!(
        app.take_effects(),
        vec![Effect::StoreCredentials { challenge, secret }, Effect::SpawnNetwork(fetch())]
    );
    assert_eq!(app.network_auth_attempts, 1);
    assert_eq!(app.pending_auth_prompt, None);
    assert_eq!(app.auth_username_input, "");
    assert_eq!(app.auth_secret_input, "");
    assert_eq!(app.focus, Focus::ModalNetworkProgress);
    assert!(app.network_running);
}

#[test]
fn passphrase_is_enough_for_a_key() {
    let mut app = fetching();
    let challenge = challenge(AuthProtocol::Ssh, Some("git"));
    app.poll_network_request(refused(challenge.clone()));
    app.take_effects();
    app.auth_username_input = s("");
    app.auth_secret_input = s("words");
    app.submit_auth_prompt();
    let secret = AuthSecret::SshKeyPassphrase { passphrase: s("words") };
    assert_eq!(
        app.take_effects(),
        vec![Effect::StoreCredentials { challenge, secret }, Effect::SpawnNetwork(fetch())]
    );
}

#[test]
fn incomplete_answers_are_not_submitted() {
    let mut idle = app();
    idle.auth_secret_input = s("pw");
    idle.submit_auth_prompt();
    assert_eq!(idle.take_effects(), Vec::new());
    for (protocol, username, secret) in [
        (AuthProtocol::Https, "", "pw"),
        (AuthProtocol::Https, " \t", "pw"),
        (AuthProtocol::Https, "me", ""),
        (AuthProtocol::Ssh, "me", ""),
    ] {
        let mut app = fetching();
        app.poll_network_request(refused(challenge(protocol, None)));
        app.take_effects();
        app.auth_username_input = s(username);
        app.auth_secret_input = s(secret);
        app.submit_auth_prompt();
        assert_eq!(app.take_effects(), Vec::new());
        assert_eq!(app.focus, Focus::ModalAuth);
        assert_eq!(app.auth_username_input, username);
        assert_eq!(app.auth_secret_input, secret);
    }
}

#[test]
fn request_is_given_up_after_three_attempts() {
    assert_eq!(MAX_AUTH_ATTEMPTS, 3);
    let mut app = fetching();
    let mut threads = 1;
    for attempt in 1..=3 {
        app.poll_network_request(refused(challenge(AuthProtocol::Ssh, None)));
        app.auth_secret_input = s("guess");
        app.submit_auth_prompt();
        assert_eq!(app.network_auth_attempts, attempt);
        for effect in app.take_effects() {
            if matches!(effect, Effect::SpawnNetwork(_)) {
                threads += 1;
            }
        }
    }
    assert_eq!(threads, 4);
    app.poll_network_request(refused(challenge(AuthProtocol::Ssh, None)));
    assert_eq!(
        app.take_effects(),
        vec![
            Effect::EvictCredentials { rejected: names(&["key"]) },
            Effect::ShowError(ErrorText::AuthenticationFailed {
                operation: s("Fetch"),
                attempts: 3,
            }),
        ]
    );
    check_at_rest(&app);
}

#[test]
fn cancelled_prompt_gives_the_request_up() {
    let mut app = fetching();
    app.poll_network_request(refused(challenge(AuthProtocol::Https, Some("me"))));
    app.take_effects();
    app.cancel_auth_prompt();
    let asked_by = Some(s("Fetch"));
    assert_eq!(app.take_effects(), shown(ErrorText::AuthCancelled { asked_by }));
    check_at_rest(&app);
    app.cancel_auth_prompt();
    assert_eq!(app.take_effects(), shown(ErrorText::AuthCancelled { asked_by: None }));
}

#[test]
fn typed_credentials_do_not_outlive_the_prompt() {
    let ends: [fn(&mut App); 2] = [App::submit_auth_prompt, App::cancel_auth_prompt];
    for end in ends {
        let mut app = fetching();
        app.poll_network_request(refused(challenge(AuthProtocol::Https, None)));
        app.auth_username_input = s("me");
        app.auth_secret_input = s("pw");
        end(&mut app);
        assert_eq!(app.pending_auth_prompt, None);
        assert_eq!(app.auth_username_input, "");
        assert_eq!(app.auth_secret_input, "");
    }
}

#[test]
fn retry_without_a_pending_request_only_counts() {
    let mut app = app();
    app.network_auth_attempts = usize::MAX;
    app.retry_pending_network_request();
    assert_eq!(app.take_effects(), Vec::new());
    assert_eq!(app.network_auth_attempts, usize::MAX);
    assert!(!app.network_running);
}

#[test]
fn result_can_be_handled_directly() {
    let mut app = app();
    app.handle_network_result(NetworkResult::Success);
    assert_eq!(app.take_effects(), vec![Effect::Reload]);
    check_at_rest(&app);
}
