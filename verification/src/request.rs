//! Network requests, their results, and the credentials they may ask for.
use vstd::prelude::*;

verus! {

/// A transfer that runs in the background.
///
/// `S` is the text type: `String` in running code, `Seq<char>` in contracts.
#[derive(Debug, PartialEq)]
pub enum NetworkRequest<S = String> {
    Fetch { repo_path: S, remote_name: S },
    PushBranch { repo_path: S, remote_name: S, branch: S, force: bool },
    PushTags { repo_path: S, remote_name: S },
    DeleteRemoteBranch { repo_path: S, remote_name: S, branch: S },
}

impl View for NetworkRequest<String> {
    type V = NetworkRequest<Seq<char>>;

    open spec fn view(&self) -> NetworkRequest<Seq<char>> {
        match self {
            NetworkRequest::Fetch { repo_path, remote_name } => NetworkRequest::Fetch {
                repo_path: repo_path@,
                remote_name: remote_name@,
            },
            NetworkRequest::PushBranch { repo_path, remote_name, branch, force } =>
                NetworkRequest::PushBranch {
                    repo_path: repo_path@,
                    remote_name: remote_name@,
                    branch: branch@,
                    force: *force,
                },
            NetworkRequest::PushTags { repo_path, remote_name } => NetworkRequest::PushTags {
                repo_path: repo_path@,
                remote_name: remote_name@,
            },
            NetworkRequest::DeleteRemoteBranch { repo_path, remote_name, branch } =>
                NetworkRequest::DeleteRemoteBranch {
                    repo_path: repo_path@,
                    remote_name: remote_name@,
                    branch: branch@,
                },
        }
    }
}

impl Clone for NetworkRequest<String> {
    fn clone(&self) -> (copy: Self)
        ensures
            copy == *self,
    {
        match self {
            NetworkRequest::Fetch { repo_path, remote_name } => NetworkRequest::Fetch {
                repo_path: repo_path.clone(),
                remote_name: remote_name.clone(),
            },
            NetworkRequest::PushBranch { repo_path, remote_name, branch, force } =>
                NetworkRequest::PushBranch {
                    repo_path: repo_path.clone(),
                    remote_name: remote_name.clone(),
                    branch: branch.clone(),
                    force: *force,
                },
            NetworkRequest::PushTags { repo_path, remote_name } => NetworkRequest::PushTags {
                repo_path: repo_path.clone(),
                remote_name: remote_name.clone(),
            },
            NetworkRequest::DeleteRemoteBranch { repo_path, remote_name, branch } =>
                NetworkRequest::DeleteRemoteBranch {
                    repo_path: repo_path.clone(),
                    remote_name: remote_name.clone(),
                    branch: branch.clone(),
                },
        }
    }
}

/// The transport a remote speaks.
#[derive(Clone, Copy, Debug, PartialEq, Eq, Structural)]
pub enum AuthProtocol {
    Http,
    Https,
    Ssh,
}

impl AuthProtocol {
    /// Whether credentials are a user name and a password.
    pub fn is_http(&self) -> (http: bool)
        ensures
            http == self.speaks_http(),
    {
        match self {
            AuthProtocol::Http | AuthProtocol::Https => true,
            AuthProtocol::Ssh => false,
        }
    }

    /// Credentials are a user name and a password.
    pub open spec fn speaks_http(self) -> bool {
        self is Http || self is Https
    }
}

/// What a remote wants to know before it lets a request through.
#[derive(Debug, PartialEq)]
pub struct AuthChallenge<S = String> {
    /// The operation that asked, as shown to the user.
    pub operation: S,
    pub protocol: AuthProtocol,
    /// The user name, where the remote's address gives one.
    pub username: Option<S>,
}

impl View for AuthChallenge<String> {
    type V = AuthChallenge<Seq<char>>;

    open spec fn view(&self) -> AuthChallenge<Seq<char>> {
        AuthChallenge {
            operation: self.operation@,
            protocol: self.protocol,
            username: match self.username {
                Some(name) => Some(name@),
                None => None,
            },
        }
    }
}

impl Clone for AuthChallenge<String> {
    fn clone(&self) -> (copy: Self)
        ensures
            copy == *self,
    {
        AuthChallenge {
            operation: self.operation.clone(),
            protocol: self.protocol,
            username: match &self.username {
                Some(name) => Some(name.clone()),
                None => None,
            },
        }
    }
}

/// What the user typed in answer to a challenge.
#[derive(Debug, PartialEq)]
pub enum AuthSecret<S = String> {
    Https { username: S, password: S },
    SshKeyPassphrase { passphrase: S },
}

impl View for AuthSecret<String> {
    type V = AuthSecret<Seq<char>>;

    open spec fn view(&self) -> AuthSecret<Seq<char>> {
        match self {
            AuthSecret::Https { username, password } => AuthSecret::Https {
                username: username@,
                password: password@,
            },
            AuthSecret::SshKeyPassphrase { passphrase } => AuthSecret::SshKeyPassphrase {
                passphrase: passphrase@,
            },
        }
    }
}

/// How a background request ended.
#[derive(Debug, PartialEq)]
pub enum NetworkResult<S = String> {
    Success,
    /// The remote refused; `rejected` lists the stored credentials it refused.
    AuthRequired { challenge: AuthChallenge<S>, rejected: Vec<String> },
    Failure(S),
}

impl View for NetworkResult<String> {
    type V = NetworkResult<Seq<char>>;

    open spec fn view(&self) -> NetworkResult<Seq<char>> {
        match self {
            NetworkResult::Success => NetworkResult::Success,
            NetworkResult::AuthRequired { challenge, rejected } => NetworkResult::AuthRequired {
                challenge: challenge@,
                rejected: *rejected,
            },
            NetworkResult::Failure(message) => NetworkResult::Failure(message@),
        }
    }
}

/// What the host saw when it looked at the background thread.
#[derive(Debug, PartialEq)]
pub enum NetworkPoll<S = String> {
    Running,
    Finished(NetworkResult<S>),
    Panicked,
}

impl View for NetworkPoll<String> {
    type V = NetworkPoll<Seq<char>>;

    open spec fn view(&self) -> NetworkPoll<Seq<char>> {
        match self {
            NetworkPoll::Running => NetworkPoll::Running,
            NetworkPoll::Finished(result) => NetworkPoll::Finished(result@),
            NetworkPoll::Panicked => NetworkPoll::Panicked,
        }
    }
}

} // verus!
