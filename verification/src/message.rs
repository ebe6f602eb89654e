//! Error messages and prepared input, before they are put into the user's
//! language.
use vstd::prelude::*;

verus! {

/// The actions whose failure is reported together with its cause.
#[derive(Clone, Copy, Debug, PartialEq, Eq, Structural)]
pub enum FailedAction {
    OpenRepository,
    Rebase,
    Merge,
    Cherrypick,
    Revert,
    DropStash,
    PopStash,
    Stash,
    Checkout,
    HardReset,
    MixedReset,
    ResetFile,
    StageAll,
    StageFile,
    StageSubmodule,
    UnstageAll,
    UnstageFile,
    UnstageSubmodule,
    DeleteBranch,
    DeleteTag,
}

/// The operations that need a remote.
#[derive(Clone, Copy, Debug, PartialEq, Eq, Structural)]
pub enum RemoteOperation {
    Fetch,
    Push,
    PushTags,
}

/// An error to show.
#[derive(Debug, PartialEq)]
pub enum ErrorText<S = String> {
    NetworkAlreadyRunning,
    NetworkPanicked,
    AuthenticationFailed { operation: S, attempts: usize },
    /// The user gave up on the operation that asked; `None` stands for a git network
    /// operation in general.
    AuthCancelled { asked_by: Option<S> },
    NoRemotesConfigured { needed_for: RemoteOperation },
    OperationNoRepository,
    CherrypickNoMessage,
    RevertNoMessage,
    RevertMergeUnsupported,
    ContinueNoOperation,
    AbortNoOperation,
    StageFileConflict,
    UnstageFileConflict,
    PushDetachedHead,
    RenameBranchLocalOnly,
    DeleteBranchCurrent,
    DeleteBranchInvalidRemote,
    /// `action` failed, and git said why.
    Failed { action: FailedAction, cause: S },
    /// Text made elsewhere.
    Text(S),
}

impl View for ErrorText<String> {
    type V = ErrorText<Seq<char>>;

    open spec fn view(&self) -> ErrorText<Seq<char>> {
        match self {
            ErrorText::NetworkAlreadyRunning => ErrorText::NetworkAlreadyRunning,
            ErrorText::NetworkPanicked => ErrorText::NetworkPanicked,
            ErrorText::AuthenticationFailed { operation, attempts } =>
                ErrorText::AuthenticationFailed { operation: operation@, attempts: *attempts },
            ErrorText::AuthCancelled { asked_by } => ErrorText::AuthCancelled {
                asked_by: match asked_by {
                    Some(name) => Some(name@),
                    None => None,
                },
            },
            ErrorText::NoRemotesConfigured { needed_for } => ErrorText::NoRemotesConfigured {
                needed_for: *needed_for,
            },
            ErrorText::OperationNoRepository => ErrorText::OperationNoRepository,
            ErrorText::CherrypickNoMessage => ErrorText::CherrypickNoMessage,
            ErrorText::RevertNoMessage => ErrorText::RevertNoMessage,
            ErrorText::RevertMergeUnsupported => ErrorText::RevertMergeUnsupported,
            ErrorText::ContinueNoOperation => ErrorText::ContinueNoOperation,
            ErrorText::AbortNoOperation => ErrorText::AbortNoOperation,
            ErrorText::StageFileConflict => ErrorText::StageFileConflict,
            ErrorText::UnstageFileConflict => ErrorText::UnstageFileConflict,
            ErrorText::PushDetachedHead => ErrorText::PushDetachedHead,
            ErrorText::RenameBranchLocalOnly => ErrorText::RenameBranchLocalOnly,
            ErrorText::DeleteBranchCurrent => ErrorText::DeleteBranchCurrent,
            ErrorText::DeleteBranchInvalidRemote => ErrorText::DeleteBranchInvalidRemote,
            ErrorText::Failed { action, cause } => ErrorText::Failed {
                action: *action,
                cause: cause@,
            },
            ErrorText::Text(text) => ErrorText::Text(text@),
        }
    }
}

/// The first line of a commit message.
#[derive(Debug, PartialEq)]
pub enum Subject<S = String> {
    Line(S),
    /// The commit has none; a stock phrase takes its place.
    Missing,
}

impl View for Subject<String> {
    type V = Subject<Seq<char>>;

    open spec fn view(&self) -> Subject<Seq<char>> {
        match self {
            Subject::Line(line) => Subject::Line(line@),
            Subject::Missing => Subject::Missing,
        }
    }
}

/// What the shared text input of the modals holds when it is opened.
#[derive(Debug, PartialEq)]
pub enum Draft<S = String> {
    Empty,
    Text(S),
    /// The message proposed for cherry-picking the commit with this subject.
    Cherrypicked(Subject<S>),
    /// The message proposed for reverting the commit with this subject.
    Reverted(Subject<S>),
}

impl View for Draft<String> {
    type V = Draft<Seq<char>>;

    open spec fn view(&self) -> Draft<Seq<char>> {
        match self {
            Draft::Empty => Draft::Empty,
            Draft::Text(text) => Draft::Text(text@),
            Draft::Cherrypicked(subject) => Draft::Cherrypicked(subject@),
            Draft::Reverted(subject) => Draft::Reverted(subject@),
        }
    }
}

} // verus!
