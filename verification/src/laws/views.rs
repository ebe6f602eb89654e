//! The views that the contracts use show everything there is.
use crate::app::App;
use crate::effect::{Effect, EffectView, GitCommand};
use crate::message::{Draft, ErrorText, Subject};
use crate::operation::OperationMessage;
use crate::request::{AuthChallenge, AuthSecret, NetworkPoll, NetworkRequest, NetworkResult};
use vstd::prelude::*;

verus! {

/// An optional text is shown as it is.
pub open spec fn same_text(text: Option<String>, shown: Option<Seq<char>>) -> bool {
    &&& text is Some <==> shown is Some
    &&& text matches Some(text) ==> shown == Some(text@)
}

/// The view of a request is the same request, word for word.
pub proof fn law_request_is_shown_as_it_is(request: NetworkRequest)
    ensures
        request matches NetworkRequest::Fetch { repo_path, remote_name } ==> (request@ matches
            NetworkRequest::Fetch { repo_path: p, remote_name: r } && p == repo_path@ && r
            == remote_name@),
        request matches NetworkRequest::PushBranch { repo_path, remote_name, branch, force } ==> (
        request@ matches NetworkRequest::PushBranch {
            repo_path: p,
            remote_name: r,
            branch: b,
            force: f,
        } && p == repo_path@ && r == remote_name@ && b == branch@ && f == force),
        request matches NetworkRequest::PushTags { repo_path, remote_name } ==> (request@ matches
            NetworkRequest::PushTags { repo_path: p, remote_name: r } && p == repo_path@ && r
            == remote_name@),
        request matches NetworkRequest::DeleteRemoteBranch { repo_path, remote_name, branch } ==> (
        request@ matches NetworkRequest::DeleteRemoteBranch {
            repo_path: p,
            remote_name: r,
            branch: b,
        } && p == repo_path@ && r == remote_name@ && b == branch@),
{
}

/// The view of a challenge and of a secret is the same, word for word.
pub proof fn law_credentials_are_shown_as_they_are(challenge: AuthChallenge, secret: AuthSecret)
    ensures
        challenge@.operation == challenge.operation@,
        challenge@.protocol == challenge.protocol,
        same_text(challenge.username, challenge@.username),
        secret matches AuthSecret::Https { username, password } ==> (secret@ matches
            AuthSecret::Https { username: u, password: p } && u == username@ && p == password@),
        secret matches AuthSecret::SshKeyPassphrase { passphrase } ==> (secret@ matches
            AuthSecret::SshKeyPassphrase { passphrase: p } && p == passphrase@),
{
}

/// The view of a result is the same result.
pub proof fn law_result_is_shown_as_it_is(result: NetworkResult, poll: NetworkPoll)
    ensures
        result is Success <==> result@ is Success,
        result matches NetworkResult::Failure(message) ==> (result@ matches NetworkResult::Failure(
            m,
        ) && m == message@),
        result matches NetworkResult::AuthRequired { challenge, rejected } ==> (result@ matches
            NetworkResult::AuthRequired { challenge: c, rejected: r } && c == challenge@ && r
            == rejected),
        poll is Running <==> poll@ is Running,
        poll is Panicked <==> poll@ is Panicked,
        poll matches NetworkPoll::Finished(result) ==> (poll@ matches NetworkPoll::Finished(r) && r
            == result@),
{
}

/// The view of a command is the same command about the same thing.
pub proof fn law_command_is_shown_as_it_is(command: GitCommand)
    ensures
        command is Stash <==> command@ is Stash,
        command is StageAll <==> command@ is StageAll,
        command is UnstageAll <==> command@ is UnstageAll,
        command matches GitCommand::DropStash { oid } ==> command@ == (GitCommand::<Seq<char>>::DropStash {
            oid,
        }),
        command matches GitCommand::PopStash { oid } ==> command@ == (GitCommand::<Seq<char>>::PopStash { oid }),
        command matches GitCommand::CheckoutHead { oid } ==> command@ == (
        GitCommand::<Seq<char>>::CheckoutHead { oid }),
        command matches GitCommand::Reset { oid, mode } ==> command@ == (GitCommand::<Seq<char>>::Reset {
            oid,
            mode,
        }),
        command matches GitCommand::ResetFile { path } ==> command@ == (GitCommand::<Seq<char>>::ResetFile {
            path: path@,
        }),
        command matches GitCommand::StageFile { path } ==> command@ == (GitCommand::<Seq<char>>::StageFile {
            path: path@,
        }),
        command matches GitCommand::UnstageFile { path } ==> command@ == (
        GitCommand::<Seq<char>>::UnstageFile { path: path@ }),
        command matches GitCommand::StageSubmodule { name, from } ==> command@ == (
        GitCommand::<Seq<char>>::StageSubmodule { name: name@, from }),
        command matches GitCommand::UnstageSubmodule { name, from } ==> command@ == (
        GitCommand::<Seq<char>>::UnstageSubmodule { name: name@, from }),
        command matches GitCommand::DeleteBranch { branch } ==> command@ == (
        GitCommand::<Seq<char>>::DeleteBranch { branch: branch@ }),
        command matches GitCommand::DeleteTag { tag } ==> command@ == (GitCommand::<Seq<char>>::DeleteTag {
            tag: tag@,
        }),
{
}

/// The view of an effect is the same effect about the same thing.
pub proof fn law_effect_is_shown_as_it_is(effect: Effect)
    ensures
        effect is Reload <==> effect@ is Reload,
        effect matches Effect::ShowError(text) ==> effect@ == EffectView::ShowError(text@),
        effect matches Effect::Focus(focus) ==> effect@ == EffectView::Focus(focus),
        effect matches Effect::SaveBranchVisibility { path, hidden } ==> effect@ == (
        EffectView::SaveBranchVisibility { path: path@, hidden: hidden@ }),
        effect matches Effect::SpawnNetwork(request) ==> effect@ == EffectView::SpawnNetwork(request@),
        effect matches Effect::EvictCredentials { rejected } ==> effect@ == (
        EffectView::EvictCredentials { rejected }),
        effect matches Effect::StoreCredentials { challenge, secret } ==> effect@ == (
        EffectView::StoreCredentials { challenge: challenge@, secret: secret@ }),
        effect matches Effect::Run(command) ==> effect@ == EffectView::Run(command@),
        effect matches Effect::CheckoutBranch { alias, branch, origin } ==> effect@ == (
        EffectView::CheckoutBranch { alias, branch: branch@, origin }),
        effect matches Effect::OpenForOperation(action) ==> effect@ == EffectView::OpenForOperation(
            action,
        ),
        effect matches Effect::Operate(step) ==> effect@ == EffectView::Operate(step),
{
}

/// The view of a text that is made in the user's language keeps what it is made of.
pub proof fn law_messages_are_shown_as_they_are(
    error: ErrorText,
    message: OperationMessage,
    draft: Draft,
    subject: Subject,
)
    ensures
        error matches ErrorText::AuthenticationFailed { operation, attempts } ==> error@ == (
        ErrorText::<Seq<char>>::AuthenticationFailed { operation: operation@, attempts }),
        error matches ErrorText::AuthCancelled { asked_by } ==> (error@ matches
            ErrorText::AuthCancelled { asked_by: a } && same_text(asked_by, a)),
        error matches ErrorText::NoRemotesConfigured { needed_for } ==> error@ == (
        ErrorText::<Seq<char>>::NoRemotesConfigured { needed_for }),
        error matches ErrorText::Failed { action, cause } ==> error@ == (ErrorText::<Seq<char>>::Failed {
            action,
            cause: cause@,
        }),
        error matches ErrorText::Text(text) ==> error@ == ErrorText::<Seq<char>>::Text(text@),
        message matches OperationMessage::RebaseCompleted { applied } ==> message@ == (
        OperationMessage::<Seq<char>>::RebaseCompleted { applied }),
        message matches OperationMessage::Continuing { kind } ==> message@ == (
        OperationMessage::<Seq<char>>::Continuing { kind }),
        message matches OperationMessage::Aborting { kind } ==> message@ == (
        OperationMessage::<Seq<char>>::Aborting { kind }),
        message matches OperationMessage::Text(text) ==> message@ == OperationMessage::<Seq<char>>::Text(text@),
        draft is Empty <==> draft@ is Empty,
        draft matches Draft::Text(text) ==> draft@ == Draft::<Seq<char>>::Text(text@),
        draft matches Draft::Cherrypicked(s) ==> draft@ == Draft::<Seq<char>>::Cherrypicked(s@),
        draft matches Draft::Reverted(s) ==> draft@ == Draft::<Seq<char>>::Reverted(s@),
        subject matches Subject::Line(line) ==> subject@ == Subject::<Seq<char>>::Line(line@),
        subject is Missing <==> subject@ is Missing,
{
}

/// The view of the state shows every field of it.
pub proof fn law_state_is_shown_as_it_is(app: App)
    ensures
        app@.repo == app.repo,
        same_text(app.path, app@.path),
        app@.viewport == app.viewport,
        app@.panes == app.panes,
        app@.focus == app.focus,
        app@.graph_selected == app.graph_selected,
        app@.hidden_branch_names == app.hidden_branch_names@,
        app@.network_running == app.network_running,
        app.pending_network_request is Some <==> app@.pending_network_request is Some,
        app.pending_network_request matches Some(request) ==> app@.pending_network_request == Some(
            request@,
        ),
        app@.network_auth_attempts == app.network_auth_attempts,
        app.pending_auth_prompt is Some <==> app@.pending_auth_prompt is Some,
        app.pending_auth_prompt matches Some(challenge) ==> app@.pending_auth_prompt == Some(
            challenge@,
        ),
        app@.auth_username_input == app.auth_username_input@,
        app@.auth_secret_input == app.auth_secret_input@,
        app@.auth_input_field == app.auth_input_field,
        app.modal_network is Some <==> app@.modal_network is Some,
        app.modal_network matches Some(request) ==> app@.modal_network == Some(request@),
        app@.pending_operation_action == app.pending_operation_action,
        app@.modal_operation_kind == app.modal_operation_kind,
        app@.modal_operation_message == app.modal_operation_message@,
        app@.pending_branch_target_oid == app.pending_branch_target_oid,
        app@.pending_cherrypick_oid == app.pending_cherrypick_oid,
        app@.pending_revert_oid == app.pending_revert_oid,
        same_text(app.modal_rename_branch_source, app@.modal_rename_branch_source),
        app@.modal_branch_action == app.modal_branch_action,
        app@.modal_solo_selected == app.modal_solo_selected,
        app@.modal_delete_branch_selected == app.modal_delete_branch_selected,
        app@.modal_input == app.modal_input@,
        app@.modal_file_search_return_focus == app.modal_file_search_return_focus,
        app@.modal_file_search_results.len() == app.modal_file_search_results@.len(),
        forall|i: int|
            0 <= i < app.modal_file_search_results@.len() ==> app@.modal_file_search_results[i] == (
            #[trigger] app.modal_file_search_results@[i])@,
        app@.modal_file_search_selected == app.modal_file_search_selected,
        app@.modal_file_search_scroll == app.modal_file_search_scroll,
        app@.effects.len() == app.effects@.len(),
        forall|i: int|
            0 <= i < app.effects@.len() ==> app@.effects[i] == (#[trigger] app.effects@[i])@,
{
}

} // verus!
