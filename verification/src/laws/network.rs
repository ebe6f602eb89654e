//! Requests in the background and the credentials they ask for.
use crate::app::AppView;
use crate::effect::Effect;
use crate::laws::branches::branches_are_open;
use crate::laws::{asks_for, begins, is_path_of, refuses, Input};
use crate::message::{ErrorText, RemoteOperation};
use crate::repository::RepoSnapshot;
use crate::request::{
    AuthChallenge, AuthProtocol, AuthSecret, NetworkPoll, NetworkRequest, NetworkResult,
};
use crate::screen::{AuthInputField, Focus};
use crate::text::{law_trimming_takes_white_space_only, trimmed, white_space};
use vstd::prelude::*;

verus! {

proof fn lemma_path(state: AppView, repo_path: Seq<char>)
    requires
        is_path_of(state, repo_path),
    ensures
        state.repo_path() == repo_path,
{
    reveal_strlit(".");
    assert("."@ =~= seq!['.']);
}

/// A fetch is from the default remote into the open repository, from every view but the
/// settings; without a remote that is reported.
pub proof fn law_fetch_is_into_the_open_repository(
    state: AppView,
    repo: RepoSnapshot,
    repo_path: Seq<char>,
)
    requires
        is_path_of(state, repo_path),
    ensures
        state.repo == Some(repo) && !(state.viewport is Settings) ==> {
            &&& repo.default_remote matches Some(remote) ==> begins(
                state,
                state.after_fetch_all(),
                NetworkRequest::Fetch { repo_path, remote_name: remote@ },
            )
            &&& repo.default_remote is None ==> refuses(
                state,
                state.after_fetch_all(),
                ErrorText::NoRemotesConfigured { needed_for: RemoteOperation::Fetch },
            )
        },
        state.repo is None || state.viewport is Settings ==> state.after_fetch_all() == state,
{
    lemma_path(state, repo_path);
}

/// A force push is of the checked-out branch of the open repository to the default remote,
/// and by force. A detached head is refused first, a missing remote next.
pub proof fn law_force_push_is_of_the_checked_out_branch(
    state: AppView,
    repo: RepoSnapshot,
    repo_path: Seq<char>,
)
    requires
        is_path_of(state, repo_path),
    ensures
        state.repo == Some(repo) && branches_are_open(state) ==> {
            &&& repo.current_branch is None ==> refuses(
                state,
                state.after_force_push(),
                ErrorText::PushDetachedHead,
            )
            &&& repo.current_branch is Some && repo.default_remote is None ==> refuses(
                state,
                state.after_force_push(),
                ErrorText::NoRemotesConfigured { needed_for: RemoteOperation::Push },
            )
            &&& repo.current_branch is Some && repo.default_remote is Some ==> begins(
                state,
                state.after_force_push(),
                NetworkRequest::PushBranch {
                    repo_path,
                    remote_name: repo.default_remote->0@,
                    branch: repo.current_branch->0@,
                    force: true,
                },
            )
        },
        state.repo is None || !branches_are_open(state) ==> state.after_force_push() == state,
{
    lemma_path(state, repo_path);
}

/// Tags are pushed from the open repository to the default remote; without one that is
/// reported.
pub proof fn law_tags_are_pushed_from_the_open_repository(
    state: AppView,
    repo: RepoSnapshot,
    repo_path: Seq<char>,
)
    requires
        is_path_of(state, repo_path),
    ensures
        state.repo == Some(repo) && branches_are_open(state) ==> {
            &&& repo.default_remote matches Some(remote) ==> begins(
                state,
                state.after_push_tags(),
                NetworkRequest::PushTags { repo_path, remote_name: remote@ },
            )
            &&& repo.default_remote is None ==> refuses(
                state,
                state.after_push_tags(),
                ErrorText::NoRemotesConfigured { needed_for: RemoteOperation::PushTags },
            )
        },
        state.repo is None || !branches_are_open(state) ==> state.after_push_tags() == state,
{
    lemma_path(state, repo_path);
}

/// A request is about the repository at `path`.
pub open spec fn is_about(request: NetworkRequest<Seq<char>>, path: Seq<char>) -> bool {
    match request {
        NetworkRequest::Fetch { repo_path, .. } => repo_path == path,
        NetworkRequest::PushBranch { repo_path, .. } => repo_path == path,
        NetworkRequest::PushTags { repo_path, .. } => repo_path == path,
        NetworkRequest::DeleteRemoteBranch { repo_path, .. } => repo_path == path,
    }
}

/// Every request that was asked for between `before` and `after` is about `path`.
pub open spec fn requests_are_about(before: AppView, after: AppView, path: Seq<char>) -> bool {
    forall|i: int|
        before.effects.len() <= i < after.effects.len() ==> (#[trigger] after.effects[i] matches
            Effect::SpawnNetwork(request) ==> is_about(request, path))
}

proof fn lemma_deleting_is_about(state: AppView, branch: Seq<char>, path: Seq<char>)
    requires
        is_path_of(state, path),
    ensures
        requests_are_about(state, state.deleting(branch), path),
{
    lemma_path(state, path);
}

proof fn lemma_deletions_are_about(state: AppView, path: Seq<char>)
    requires
        is_path_of(state, path),
    ensures
        requests_are_about(state, state.after_delete_branch(), path),
{
    let choices = state.panes.deletable(state.current_branch());
    if choices.len() == 1 {
        lemma_deleting_is_about(state, choices[0], path);
    }
    if let Some((_, branch, _)) = state.panes.branch_row() {
        lemma_deleting_is_about(state, branch, path);
    }
}

proof fn lemma_transfers_are_about(state: AppView, path: Seq<char>)
    requires
        is_path_of(state, path),
    ensures
        requests_are_about(state, state.after_fetch_all(), path),
        requests_are_about(state, state.after_force_push(), path),
        requests_are_about(state, state.after_push_tags(), path),
{
    if let Some(repo) = state.repo {
        law_fetch_is_into_the_open_repository(state, repo, path);
        law_force_push_is_of_the_checked_out_branch(state, repo, path);
        law_tags_are_pushed_from_the_open_repository(state, repo, path);
    }
}

/// What an input asks for, if anything, is no request.
spec fn asks_for_no_request(before: AppView, after: AppView) -> bool {
    after.effects.len() > before.effects.len() ==> !(after.effects.last() is SpawnNetwork)
}

proof fn lemma_other_inputs_ask_for_no_request(state: AppView)
    ensures
        asks_for_no_request(state, state.after_drop()),
        asks_for_no_request(state, state.after_pop()),
        asks_for_no_request(state, state.after_stash()),
        asks_for_no_request(state, state.after_find()),
        asks_for_no_request(state, state.after_find_file()),
        asks_for_no_request(state, state.after_commit()),
        asks_for_no_request(state, state.after_tag()),
        asks_for_no_request(state, state.after_untag()),
        asks_for_no_request(state, state.after_hard_reset()),
        asks_for_no_request(state, state.after_mixed_reset()),
{
}

proof fn lemma_branch_inputs_ask_for_no_request(state: AppView)
    ensures
        asks_for_no_request(state, state.after_checkout()),
        asks_for_no_request(state, state.after_unstage()),
        asks_for_no_request(state, state.after_stage()),
        asks_for_no_request(state, state.after_create_branch()),
        asks_for_no_request(state, state.after_rename_branch()),
{
}

proof fn lemma_operation_inputs_ask_for_no_request(state: AppView)
    ensures
        asks_for_no_request(state, state.after_cherrypick()),
        asks_for_no_request(state, state.after_revert()),
        asks_for_no_request(state, state.after_rebase()),
        asks_for_no_request(state, state.after_merge()),
        asks_for_no_request(state, state.after_continue_operation()),
        asks_for_no_request(state, state.after_abort_operation()),
{
}

/// Whatever request an input starts is about the open repository: under its path where that
/// is known, and under a dot where it is not.
pub proof fn law_requests_are_about_the_open_repository(
    state: AppView,
    input: Input,
    path: Seq<char>,
)
    requires
        is_path_of(state, path),
    ensures
        requests_are_about(state, state.after_input(input), path),
{
    crate::laws::law_inputs_keep_what_is_shown(state, input);
    match input {
        Input::FetchAll | Input::ForcePush | Input::PushTags => {
            lemma_transfers_are_about(state, path);
        },
        Input::DeleteBranch => {
            lemma_deletions_are_about(state, path);
        },
        Input::Checkout | Input::Unstage | Input::Stage | Input::CreateBranch
        | Input::RenameBranch => {
            lemma_branch_inputs_ask_for_no_request(state);
        },
        Input::Cherrypick | Input::Revert | Input::Rebase | Input::Merge
        | Input::ContinueOperation | Input::AbortOperation => {
            lemma_operation_inputs_ask_for_no_request(state);
        },
        _ => {
            lemma_other_inputs_ask_for_no_request(state);
        },
    }
}

/// A new request is under way, or refused while another one is.
pub proof fn law_request_begins(state: AppView, request: NetworkRequest<Seq<char>>)
    ensures
        begins(state, state.started(request), request),
{
}

/// The state without anything of a request, and the focus back on the viewport.
pub open spec fn forgets(state: AppView) -> AppView {
    AppView {
        pending_network_request: None,
        network_auth_attempts: 0,
        pending_auth_prompt: None,
        auth_username_input: Seq::empty(),
        auth_secret_input: Seq::empty(),
        modal_network: None,
        focus: Focus::Viewport,
        ..state
    }
}

/// A request that failed is forgotten and its message shown; a thread that panicked and a
/// prompt that was closed likewise.
pub proof fn law_failures_are_shown_and_forgotten(state: AppView, message: Seq<char>)
    ensures
        refuses(
            forgets(state),
            state.network_ended(NetworkResult::Failure(message)),
            ErrorText::Text(message),
        ),
        state.network_running ==> refuses(
            forgets(AppView { network_running: false, ..state }),
            state.network_polled(NetworkPoll::Panicked),
            ErrorText::NetworkPanicked,
        ),
        state.pending_auth_prompt matches Some(challenge) ==> refuses(
            forgets(state),
            state.auth_cancelled(),
            ErrorText::AuthCancelled { asked_by: Some(challenge.operation) },
        ),
        state.pending_auth_prompt is None ==> refuses(
            forgets(state),
            state.auth_cancelled(),
            ErrorText::AuthCancelled { asked_by: None },
        ),
{
}

/// A thread is heard exactly if it was started and is done; its result is then dealt with as
/// that of a thread that no longer runs.
pub proof fn law_finished_threads_are_heard(state: AppView, result: NetworkResult<Seq<char>>)
    ensures
        state.network_polled(NetworkPoll::Running) == state,
        !state.network_running ==> state.network_polled(NetworkPoll::Finished(result)) == state
            && state.network_polled(NetworkPoll::Panicked) == state,
        state.network_running ==> state.network_polled(NetworkPoll::Finished(result)) == (AppView {
            network_running: false,
            ..state
        }).network_ended(result),
{
}

/// A request that worked is forgotten and everything read anew. Only the deletion of a
/// remote branch does more: the branch, under its remote's name and a slash, is no longer
/// hidden, and that is saved if it was and it is known where.
pub proof fn law_success_is_followed_up(state: AppView)
    ensures
        ({
            let after = state.network_ended(NetworkResult::Success);
            &&& !(state.pending_network_request matches Some(
                NetworkRequest::DeleteRemoteBranch { .. },
            )) ==> asks_for(forgets(state), after, Effect::Reload)
            &&& state.pending_network_request matches Some(
                NetworkRequest::DeleteRemoteBranch { remote_name, branch, .. },
            ) ==> {
                let name = remote_name + seq!['/'] + branch;
                let hidden = state.hidden_branch_names.remove(name);
                let was_hidden = state.hidden_branch_names.contains(name);
                &&& after == AppView {
                    hidden_branch_names: hidden,
                    effects: after.effects,
                    ..forgets(state)
                }
                &&& was_hidden && state.path is Some ==> after.effects == state.effects.push(
                    Effect::SaveBranchVisibility { path: state.path->0, hidden },
                ).push(Effect::Reload)
                &&& !was_hidden || state.path is None ==> after.effects == state.effects.push(
                    Effect::Reload,
                )
            }
        }),
{
    reveal_strlit("/");
    assert("/"@ =~= seq!['/']);
    if let Some(NetworkRequest::DeleteRemoteBranch { remote_name, branch, .. }) =
        state.pending_network_request {
        let name = remote_name + seq!['/'] + branch;
        assert(remote_name + "/"@ + branch == name);
        if !state.hidden_branch_names.contains(name) {
            assert(state.hidden_branch_names.remove(name) =~= state.hidden_branch_names);
        }
    }
}

/// A remote that asks for credentials gets an answer three times. Until then the prompt
/// opens for its very challenge, with the user name it gives and no secret, and with the
/// first field to fill in: the user name of a web protocol if that is not given, and the
/// secret otherwise. After that the request is given up. What was refused is forgotten
/// first in any case.
pub proof fn law_prompt_opens_three_times(
    state: AppView,
    challenge: AuthChallenge<Seq<char>>,
    rejected: Vec<String>,
)
    ensures
        ({
            let after = state.network_ended(NetworkResult::AuthRequired { challenge, rejected });
            let evicted = AppView {
                effects: state.effects.push(Effect::EvictCredentials { rejected }),
                ..state
            };
            let web = challenge.protocol == AuthProtocol::Http || challenge.protocol
                == AuthProtocol::Https;
            &&& state.network_auth_attempts < 3 ==> after == AppView {
                focus: Focus::ModalAuth,
                pending_auth_prompt: Some(challenge),
                auth_username_input: after.auth_username_input,
                auth_secret_input: Seq::empty(),
                auth_input_field: after.auth_input_field,
                ..evicted
            }
            &&& state.network_auth_attempts < 3 ==> {
                &&& challenge.username matches Some(name) ==> after.auth_username_input == name
                &&& challenge.username is None ==> after.auth_username_input.len() == 0
                &&& after.auth_input_field == AuthInputField::Username <==> web
                    && after.auth_username_input.len() == 0
            }
            &&& state.network_auth_attempts >= 3 ==> refuses(
                forgets(evicted),
                after,
                ErrorText::AuthenticationFailed { operation: challenge.operation, attempts: 3 },
            )
        }),
{
}

/// The pending request is tried again with one more attempt counted, and nothing is tried
/// without one.
pub proof fn law_retry_counts_an_attempt(state: AppView)
    ensures
        ({
            let after = state.retried();
            let counted = AppView { network_auth_attempts: after.network_auth_attempts, ..state };
            &&& state.network_auth_attempts < usize::MAX ==> after.network_auth_attempts
                == state.network_auth_attempts + 1
            &&& state.network_auth_attempts == usize::MAX ==> after.network_auth_attempts
                == usize::MAX
            &&& state.pending_network_request is None ==> after == counted
            &&& state.pending_network_request matches Some(request) ==> asks_for(
                AppView {
                    modal_network: Some(request),
                    focus: Focus::ModalNetworkProgress,
                    network_running: true,
                    ..counted
                },
                after,
                Effect::SpawnNetwork(request),
            )
        }),
{
}

/// `inner` is `text` without the white space at its ends.
pub open spec fn is_trimmed(text: Seq<char>, inner: Seq<char>) -> bool {
    exists|start: int, end: int| #[trigger] is_trimmed_at(text, inner, start, end)
}

/// `inner` is what stands between two positions of `text`; beyond them is white space only,
/// and `inner` has none at its ends.
pub open spec fn is_trimmed_at(text: Seq<char>, inner: Seq<char>, start: int, end: int) -> bool {
    &&& 0 <= start <= end <= text.len()
    &&& inner == text.subrange(start, end)
    &&& forall|i: int| 0 <= i < start ==> white_space(#[trigger] text[i])
    &&& forall|i: int| end <= i < text.len() ==> white_space(#[trigger] text[i])
    &&& start < end ==> !white_space(text[start]) && !white_space(text[end - 1])
}

/// There is one way to trim a text.
pub proof fn law_one_way_to_trim(text: Seq<char>, inner: Seq<char>)
    ensures
        trimmed(text) == inner <==> is_trimmed(text, inner),
{
    let range = law_trimming_takes_white_space_only(text);
    assert(is_trimmed_at(text, trimmed(text), range.0, range.1));
    if is_trimmed(text, inner) {
        let (start, end) = choose|start: int, end: int| #[trigger]
            is_trimmed_at(text, inner, start, end);
        if start < end {
            assert(!white_space(text[start]));
            if range.0 == range.1 {
                if start < range.0 {
                    assert(white_space(text[start]));
                } else {
                    assert(white_space(text[start]));
                }
            }
            assert(range.0 < range.1);
            assert(start >= range.0);
            assert(range.0 >= start) by {
                if range.0 < start {
                    assert(white_space(text[range.0]));
                }
            }
            assert(end - 1 < range.1) by {
                if end - 1 >= range.1 {
                    assert(white_space(text[end - 1]));
                }
            }
            assert(range.1 - 1 < end) by {
                if range.1 - 1 >= end {
                    assert(white_space(text[range.1 - 1]));
                }
            }
        } else {
            if range.0 < range.1 {
                if range.0 < start {
                    assert(white_space(text[range.0]));
                } else {
                    assert(white_space(text[range.0]));
                }
            }
            assert(inner =~= trimmed(text));
        }
    }
}

/// White space is the characters with the Unicode property of that name.
pub proof fn law_white_space_is_that_of_unicode(c: char)
    ensures
        white_space(c) <==> seq![
            0x9u32,
            0xa,
            0xb,
            0xc,
            0xd,
            0x20,
            0x85,
            0xa0,
            0x1680,
            0x2000,
            0x2001,
            0x2002,
            0x2003,
            0x2004,
            0x2005,
            0x2006,
            0x2007,
            0x2008,
            0x2009,
            0x200a,
            0x2028,
            0x2029,
            0x202f,
            0x205f,
            0x3000,
        ].contains(c as u32),
{
    let points = seq![
        0x9u32,
        0xa,
        0xb,
        0xc,
        0xd,
        0x20,
        0x85,
        0xa0,
        0x1680,
        0x2000,
        0x2001,
        0x2002,
        0x2003,
        0x2004,
        0x2005,
        0x2006,
        0x2007,
        0x2008,
        0x2009,
        0x200a,
        0x2028,
        0x2029,
        0x202f,
        0x205f,
        0x3000,
    ];
    let n = c as u32;
    if white_space(c) {
        if n <= 0xd {
            assert(points[n - 9] == n);
        } else if n == 0x20 {
            assert(points[5] == n);
        } else if n == 0x85 {
            assert(points[6] == n);
        } else if n == 0xa0 {
            assert(points[7] == n);
        } else if n == 0x1680 {
            assert(points[8] == n);
        } else if n <= 0x200a {
            assert(points[n - 0x2000 + 9] == n);
        } else if n == 0x2028 {
            assert(points[20] == n);
        } else if n == 0x2029 {
            assert(points[21] == n);
        } else if n == 0x202f {
            assert(points[22] == n);
        } else if n == 0x205f {
            assert(points[23] == n);
        } else {
            assert(points[24] == n);
        }
    }
}

/// The prompt was answered with `secret`: between `before` and `after` it was stored, the
/// prompt was closed and emptied, one more attempt was counted, and then the pending request
/// was handed to a thread.
pub open spec fn answers_with(
    before: AppView,
    after: AppView,
    challenge: AuthChallenge<Seq<char>>,
    secret: AuthSecret<Seq<char>>,
) -> bool {
    let closed = AppView {
        pending_auth_prompt: None,
        auth_username_input: Seq::empty(),
        auth_secret_input: Seq::empty(),
        network_auth_attempts: after.network_auth_attempts,
        effects: before.effects.push(Effect::StoreCredentials { challenge, secret }),
        ..before
    };
    &&& before.network_auth_attempts < usize::MAX ==> after.network_auth_attempts
        == before.network_auth_attempts + 1
    &&& before.network_auth_attempts == usize::MAX ==> after.network_auth_attempts == usize::MAX
    &&& before.pending_network_request is None ==> after == closed
    &&& before.pending_network_request matches Some(request) ==> after == AppView {
        modal_network: Some(request),
        focus: Focus::ModalNetworkProgress,
        network_running: true,
        effects: closed.effects.push(Effect::SpawnNetwork(request)),
        ..closed
    }
}

/// The protocol of the challenge alone decides what kind of secret is stored. For a key it
/// is the typed secret as a passphrase, whatever stands in the user name; for the web
/// protocols it is the trimmed user name with the typed secret as it is. Where one of them
/// is missing, or no prompt is open, nothing happens.
pub proof fn law_protocol_decides_the_secret(
    state: AppView,
    challenge: AuthChallenge<Seq<char>>,
    username: Seq<char>,
)
    requires
        is_trimmed(state.auth_username_input, username),
    ensures
        state.pending_auth_prompt is None ==> state.auth_submitted() == state,
        state.pending_auth_prompt == Some(challenge) ==> {
            let after = state.auth_submitted();
            let typed = state.auth_secret_input;
            &&& typed.len() == 0 ==> after == state
            &&& challenge.protocol == AuthProtocol::Ssh && typed.len() > 0 ==> answers_with(
                state,
                after,
                challenge,
                AuthSecret::SshKeyPassphrase { passphrase: typed },
            )
            &&& challenge.protocol != AuthProtocol::Ssh && username.len() == 0 ==> after == state
            &&& challenge.protocol != AuthProtocol::Ssh && username.len() > 0 && typed.len() > 0
                ==> answers_with(
                state,
                after,
                challenge,
                AuthSecret::Https { username, password: typed },
            )
        },
{
    law_one_way_to_trim(state.auth_username_input, username);
}

} // verus!
