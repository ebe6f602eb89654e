//! Background requests and the credentials they ask for.
use crate::app::{App, AppView};
use crate::effect::Effect;
use crate::message::{ErrorText, RemoteOperation};
use crate::repository::text_of;
use crate::request::{
    AuthChallenge, AuthSecret, NetworkPoll, NetworkRequest, NetworkResult,
};
use crate::screen::{AuthInputField, Focus, Viewport};
use crate::text::{trim, trimmed};
use vstd::prelude::*;

verus! {

/// How often credentials are sent for one request before it is given up.
pub const MAX_AUTH_ATTEMPTS: usize = 3;

impl AppView {
    /// The pending request is handed to a background thread. Nothing happens when
    /// there is none.
    pub open spec fn spawned(self) -> AppView {
        match self.pending_network_request {
            Some(request) => AppView {
                modal_network: Some(request),
                focus: Focus::ModalNetworkProgress,
                network_running: true,
                ..self
            }.queue(Effect::SpawnNetwork(request)),
            None => self,
        }
    }

    /// A new request is started, unless one is running.
    pub open spec fn started(self, request: NetworkRequest<Seq<char>>) -> AppView {
        if self.network_running {
            self.report(ErrorText::NetworkAlreadyRunning)
        } else {
            AppView {
                pending_network_request: Some(request),
                network_auth_attempts: 0,
                ..self
            }.spawned()
        }
    }

    /// The pending request is tried once more.
    pub open spec fn retried(self) -> AppView {
        AppView {
            network_auth_attempts: if self.network_auth_attempts < usize::MAX {
                (self.network_auth_attempts + 1) as usize
            } else {
                usize::MAX
            },
            ..self
        }.spawned()
    }

    /// Everything about the last request is forgotten and the focus is back on the
    /// viewport.
    pub open spec fn network_at_rest(self) -> AppView {
        AppView {
            pending_network_request: None,
            network_auth_attempts: 0,
            pending_auth_prompt: None,
            auth_username_input: Seq::empty(),
            auth_secret_input: Seq::empty(),
            modal_network: None,
            focus: Focus::Viewport,
            ..self
        }
    }

    /// The request is over and did not work.
    pub open spec fn network_failed(self, text: ErrorText<Seq<char>>) -> AppView {
        self.network_at_rest().report(text)
    }

    /// The request is over and worked. A branch that was deleted on a remote is no
    /// longer hidden either.
    pub open spec fn network_succeeded(self) -> AppView {
        let rested = self.network_at_rest();
        let shown = match self.pending_network_request {
            Some(NetworkRequest::DeleteRemoteBranch { remote_name, branch, .. }) => rested.unhiding(
                remote_name + "/"@ + branch,
            ),
            _ => rested,
        };
        shown.queue(Effect::Reload)
    }

    /// The user is asked for credentials. The user name is filled in where it is
    /// known, and the first field that is still empty is the one to edit.
    pub open spec fn prompted(self, challenge: AuthChallenge<Seq<char>>) -> AppView {
        let username = match challenge.username {
            Some(name) => name,
            None => Seq::empty(),
        };
        AppView {
            pending_auth_prompt: Some(challenge),
            auth_username_input: username,
            auth_secret_input: Seq::empty(),
            auth_input_field: if challenge.protocol.speaks_http() && username.len() == 0 {
                AuthInputField::Username
            } else {
                AuthInputField::Secret
            },
            focus: Focus::ModalAuth,
            ..self
        }
    }

    /// The remote wants credentials, or other ones. What it refused is forgotten,
    /// and after too many attempts the request is given up.
    pub open spec fn challenged(
        self,
        challenge: AuthChallenge<Seq<char>>,
        rejected: Vec<String>,
    ) -> AppView {
        let evicted = self.queue(Effect::EvictCredentials { rejected });
        if self.network_auth_attempts >= MAX_AUTH_ATTEMPTS {
            evicted.network_failed(
                ErrorText::AuthenticationFailed {
                    operation: challenge.operation,
                    attempts: MAX_AUTH_ATTEMPTS,
                },
            )
        } else {
            evicted.prompted(challenge)
        }
    }

    /// A request ended.
    pub open spec fn network_ended(self, result: NetworkResult<Seq<char>>) -> AppView {
        match result {
            NetworkResult::Success => self.network_succeeded(),
            NetworkResult::AuthRequired { challenge, rejected } => self.challenged(
                challenge,
                rejected,
            ),
            NetworkResult::Failure(message) => self.network_failed(ErrorText::Text(message)),
        }
    }

    /// The host looked at the background thread. That matters only if there is one
    /// and it is done.
    pub open spec fn network_polled(self, poll: NetworkPoll<Seq<char>>) -> AppView {
        if !self.network_running || poll is Running {
            self
        } else {
            let stopped = AppView { network_running: false, ..self };
            match poll {
                NetworkPoll::Finished(result) => stopped.network_ended(result),
                _ => stopped.network_failed(ErrorText::NetworkPanicked),
            }
        }
    }

    /// The user closed the prompt for credentials.
    pub open spec fn auth_cancelled(self) -> AppView {
        let asked_by = match self.pending_auth_prompt {
            Some(challenge) => Some(challenge.operation),
            None => None,
        };
        self.network_failed(ErrorText::AuthCancelled { asked_by })
    }

    /// What the user typed, if it is enough to answer the challenge: a user name and
    /// a password for the web protocols, a passphrase otherwise.
    pub open spec fn typed_secret(self, challenge: AuthChallenge<Seq<char>>) -> Option<
        AuthSecret<Seq<char>>,
    > {
        let username = trimmed(self.auth_username_input);
        if self.auth_secret_input.len() == 0 {
            None
        } else if !challenge.protocol.speaks_http() {
            Some(AuthSecret::SshKeyPassphrase { passphrase: self.auth_secret_input })
        } else if username.len() == 0 {
            None
        } else {
            Some(AuthSecret::Https { username, password: self.auth_secret_input })
        }
    }

    /// The prompt is answered with `secret`: it is stored, the inputs are emptied and
    /// the request is tried again.
    pub open spec fn answered(
        self,
        challenge: AuthChallenge<Seq<char>>,
        secret: AuthSecret<Seq<char>>,
    ) -> AppView {
        AppView {
            pending_auth_prompt: None,
            auth_username_input: Seq::empty(),
            auth_secret_input: Seq::empty(),
            ..self
        }.queue(Effect::StoreCredentials { challenge, secret }).retried()
    }

    /// The user confirmed the prompt. Without a prompt, or with too little typed,
    /// nothing happens.
    pub open spec fn auth_submitted(self) -> AppView {
        match self.pending_auth_prompt {
            Some(challenge) => match self.typed_secret(challenge) {
                Some(secret) => self.answered(challenge, secret),
                None => self,
            },
            None => self,
        }
    }

    /// The default remote of the open repository.
    pub open spec fn default_remote(self) -> Option<Seq<char>> {
        match self.repo {
            Some(repo) => text_of(repo.default_remote),
            None => None,
        }
    }

    /// An operation on the default remote: `request` is started, or it is reported
    /// that there is no remote.
    pub open spec fn to_default_remote(
        self,
        operation: RemoteOperation,
        request: NetworkRequest<Seq<char>>,
    ) -> AppView {
        if self.default_remote() is Some {
            self.started(request)
        } else {
            self.report(ErrorText::NoRemotesConfigured { needed_for: operation })
        }
    }

    /// Fetching works from every view but the settings.
    pub open spec fn after_fetch_all(self) -> AppView {
        if self.viewport is Settings || self.repo is None {
            self
        } else {
            self.to_default_remote(
                RemoteOperation::Fetch,
                NetworkRequest::Fetch {
                    repo_path: self.repo_path(),
                    remote_name: self.default_remote()->0,
                },
            )
        }
    }

    /// The checked-out branch is pushed by force.
    pub open spec fn after_force_push(self) -> AppView {
        if self.repo is None || self.in_settings_or_viewer() {
            self
        } else {
            match self.current_branch() {
                Some(branch) => self.to_default_remote(
                    RemoteOperation::Push,
                    NetworkRequest::PushBranch {
                        repo_path: self.repo_path(),
                        remote_name: self.default_remote()->0,
                        branch,
                        force: true,
                    },
                ),
                None => self.report(ErrorText::PushDetachedHead),
            }
        }
    }

    /// All tags are pushed.
    pub open spec fn after_push_tags(self) -> AppView {
        if self.repo is None || self.in_settings_or_viewer() {
            self
        } else {
            self.to_default_remote(
                RemoteOperation::PushTags,
                NetworkRequest::PushTags {
                    repo_path: self.repo_path(),
                    remote_name: self.default_remote()->0,
                },
            )
        }
    }
}

impl App {
    /// Starts a request in the background, unless one is running already.
    pub fn start_network_request(&mut self, request: NetworkRequest)
        ensures
            final(self)@ == old(self)@.started(request@),
    {
        if self.network_running {
            self.show_error(ErrorText::NetworkAlreadyRunning);
            return ;
        }
        self.pending_network_request = Some(request);
        self.network_auth_attempts = 0;
        self.spawn_pending_network_request();
    }

    /// Tries the pending request again, now with the credentials just stored.
    pub fn retry_pending_network_request(&mut self)
        ensures
            final(self)@ == old(self)@.retried(),
    {
        self.network_auth_attempts = self.network_auth_attempts.saturating_add(1);
        self.spawn_pending_network_request();
    }

    fn spawn_pending_network_request(&mut self)
        ensures
            final(self)@ == old(self)@.spawned(),
    {
        let request = match &self.pending_network_request {
            Some(request) => request.clone(),
            None => {
                return ;
            },
        };
        self.modal_network = Some(request.clone());
        self.focus = Focus::ModalNetworkProgress;
        self.network_running = true;
        self.emit(Effect::SpawnNetwork(request));
    }

    /// Takes note of what the background thread is doing.
    pub fn poll_network_request(&mut self, poll: NetworkPoll)
        ensures
            final(self)@ == old(self)@.network_polled(poll@),
    {
        if !self.network_running {
            return ;
        }
        match poll {
            NetworkPoll::Running => {},
            NetworkPoll::Finished(result) => {
                self.network_running = false;
                self.handle_network_result(result);
            },
            NetworkPoll::Panicked => {
                self.network_running = false;
                self.finish_network_failure(ErrorText::NetworkPanicked);
            },
        }
    }

    /// Deals with the end of a request.
    pub fn handle_network_result(&mut self, result: NetworkResult)
        ensures
            final(self)@ == old(self)@.network_ended(result@),
    {
        match result {
            NetworkResult::Success => {
                let completed = self.pending_network_request.take();
                self.rest_network();
                if let Some(NetworkRequest::DeleteRemoteBranch { remote_name, branch, .. }) =
                    completed {
                    let hidden_name = remote_name.concat("/").concat(branch.as_str());
                    self.unhide(&hidden_name);
                }
                self.reload();
            },
            NetworkResult::AuthRequired { challenge, rejected } => {
                self.emit(Effect::EvictCredentials { rejected });
                if self.network_auth_attempts >= MAX_AUTH_ATTEMPTS {
                    self.finish_network_failure(
                        ErrorText::AuthenticationFailed {
                            operation: challenge.operation,
                            attempts: MAX_AUTH_ATTEMPTS,
                        },
                    );
                    return ;
                }
                self.open_auth_prompt(challenge);
            },
            NetworkResult::Failure(message) => {
                self.finish_network_failure(ErrorText::Text(message));
            },
        }
    }

    fn open_auth_prompt(&mut self, challenge: AuthChallenge)
        ensures
            final(self)@ == old(self)@.prompted(challenge@),
    {
        let username = match &challenge.username {
            Some(name) => name.clone(),
            None => String::new(),
        };
        self.auth_input_field = if challenge.protocol.is_http() && username.as_str().is_empty() {
            AuthInputField::Username
        } else {
            AuthInputField::Secret
        };
        self.auth_username_input = username;
        self.auth_secret_input = String::new();
        self.pending_auth_prompt = Some(challenge);
        self.focus = Focus::ModalAuth;
    }

    fn rest_network(&mut self)
        ensures
            final(self)@ == old(self)@.network_at_rest(),
    {
        self.pending_network_request = None;
        self.network_auth_attempts = 0;
        self.pending_auth_prompt = None;
        self.auth_username_input = String::new();
        self.auth_secret_input = String::new();
        self.modal_network = None;
        self.focus = Focus::Viewport;
    }

    fn finish_network_failure(&mut self, text: ErrorText)
        ensures
            final(self)@ == old(self)@.network_failed(text@),
    {
        self.rest_network();
        self.show_error(text);
    }

    /// Gives up the request that asked for credentials.
    pub fn cancel_auth_prompt(&mut self)
        ensures
            final(self)@ == old(self)@.auth_cancelled(),
    {
        let asked_by = match &self.pending_auth_prompt {
            Some(challenge) => Some(challenge.operation.clone()),
            None => None,
        };
        self.finish_network_failure(ErrorText::AuthCancelled { asked_by });
    }

    /// Answers the prompt with what was typed, if it is enough.
    pub fn submit_auth_prompt(&mut self)
        ensures
            final(self)@ == old(self)@.auth_submitted(),
    {
        let challenge = match &self.pending_auth_prompt {
            Some(challenge) => challenge.clone(),
            None => {
                return ;
            },
        };
        let secret = if challenge.protocol.is_http() {
            let username = trim(&self.auth_username_input);
            let password = self.auth_secret_input.clone();
            if username.as_str().is_empty() || password.as_str().is_empty() {
                return ;
            }
            AuthSecret::Https { username, password }
        } else {
            let passphrase = self.auth_secret_input.clone();
            if passphrase.as_str().is_empty() {
                return ;
            }
            AuthSecret::SshKeyPassphrase { passphrase }
        };
        self.pending_auth_prompt = None;
        self.auth_username_input = String::new();
        self.auth_secret_input = String::new();
        self.emit(Effect::StoreCredentials { challenge, secret });
        self.retry_pending_network_request();
    }

    /// The default remote. That there is none is reported, if a repository is open.
    fn default_remote_for_network(&mut self, operation: RemoteOperation) -> (remote: Option<String>)
        ensures
            text_of(remote) == old(self)@.default_remote(),
            final(self)@ == if old(self).repo is Some && remote is None {
                old(self)@.report(ErrorText::NoRemotesConfigured { needed_for: operation })
            } else {
                old(self)@
            },
    {
        let remote = match &self.repo {
            Some(repo) => match &repo.default_remote {
                Some(name) => Some(name.clone()),
                None => None,
            },
            None => {
                return None;
            },
        };
        if remote.is_none() {
            self.show_error(ErrorText::NoRemotesConfigured { needed_for: operation });
        }
        remote
    }

    /// Fetches from the default remote.
    pub fn on_fetch_all(&mut self)
        ensures
            final(self)@ == old(self)@.after_fetch_all(),
    {
        if self.viewport != Viewport::Settings {
            let remote_name = match self.default_remote_for_network(RemoteOperation::Fetch) {
                Some(remote_name) => remote_name,
                None => {
                    return ;
                },
            };
            let repo_path = self.request_path();
            self.start_network_request(NetworkRequest::Fetch { repo_path, remote_name });
        }
    }

    /// Pushes the checked-out branch by force.
    pub fn on_force_push(&mut self)
        ensures
            final(self)@ == old(self)@.after_force_push(),
    {
        if self.is_in_settings_or_viewer() {
            return ;
        }
        let branch = match &self.repo {
            Some(repo) => match &repo.current_branch {
                Some(branch) => Some(branch.clone()),
                None => None,
            },
            None => {
                return ;
            },
        };
        let repo_path = self.request_path();
        let branch = match branch {
            Some(branch) => branch,
            None => {
                self.show_error(ErrorText::PushDetachedHead);
                return ;
            },
        };
        let remote_name = match self.default_remote_for_network(RemoteOperation::Push) {
            Some(remote_name) => remote_name,
            None => {
                return ;
            },
        };
        self.start_network_request(
            NetworkRequest::PushBranch { repo_path, remote_name, branch, force: true },
        );
    }

    /// Pushes all tags.
    pub fn on_push_tags(&mut self)
        ensures
            final(self)@ == old(self)@.after_push_tags(),
    {
        if self.repo.is_none() || self.is_in_settings_or_viewer() {
            return ;
        }
        let remote_name = match self.default_remote_for_network(RemoteOperation::PushTags) {
            Some(remote_name) => remote_name,
            None => {
                return ;
            },
        };
        let repo_path = self.request_path();
        self.start_network_request(NetworkRequest::PushTags { repo_path, remote_name });
    }
}

} // verus!
