//! Operations that take several steps: rebase, merge, cherry-pick and revert.
use git2::Oid;
use vstd::prelude::*;

verus! {

#[derive(Clone, Copy, Debug, PartialEq, Eq, Structural)]
pub enum OperationKind {
    Rebase,
    Merge,
    Cherrypick,
    Revert,
}

/// A step the user has confirmed and that runs once the progress modal is up.
#[derive(Clone, Copy, Debug, PartialEq)]
pub enum PendingOperationAction {
    Start { kind: OperationKind, oid: Oid },
    Continue,
    Abort,
}

#[derive(Clone, Copy, Debug, PartialEq)]
pub enum RebaseOutcome {
    Completed { applied: usize },
    Conflict,
    Aborted,
}

#[derive(Clone, Copy, Debug, PartialEq)]
pub enum CherrypickOutcome {
    Committed,
    Conflict,
    Aborted,
}

#[derive(Clone, Copy, Debug, PartialEq)]
pub enum RevertOutcome {
    Committed,
    Conflict,
    Aborted,
}

#[derive(Clone, Copy, Debug, PartialEq)]
pub enum MergeOutcome {
    Completed,
    FastForward,
    UpToDate,
    Conflict,
    Aborted,
}

/// The text of the operation modals, before it is put into the user's language.
#[derive(Debug, PartialEq)]
pub enum OperationMessage<S = String> {
    Empty,
    RebaseCompleted { applied: usize },
    RebaseConflict,
    RebaseAborted,
    CherrypickCompleted,
    CherrypickConflict,
    CherrypickAborted,
    RevertCompleted,
    RevertConflict,
    RevertAborted,
    MergeCompleted,
    MergeFastForwarded,
    MergeAlreadyUpToDate,
    MergeConflict,
    MergeAborted,
    RebasingSelectedCommit,
    MergingSelectedCommit,
    Continuing { kind: OperationKind },
    Aborting { kind: OperationKind },
    /// Text made elsewhere.
    Text(S),
}

impl View for OperationMessage<String> {
    type V = OperationMessage<Seq<char>>;

    open spec fn view(&self) -> OperationMessage<Seq<char>> {
        match self {
            OperationMessage::Empty => OperationMessage::Empty,
            OperationMessage::RebaseCompleted { applied } => OperationMessage::RebaseCompleted {
                applied: *applied,
            },
            OperationMessage::RebaseConflict => OperationMessage::RebaseConflict,
            OperationMessage::RebaseAborted => OperationMessage::RebaseAborted,
            OperationMessage::CherrypickCompleted => OperationMessage::CherrypickCompleted,
            OperationMessage::CherrypickConflict => OperationMessage::CherrypickConflict,
            OperationMessage::CherrypickAborted => OperationMessage::CherrypickAborted,
            OperationMessage::RevertCompleted => OperationMessage::RevertCompleted,
            OperationMessage::RevertConflict => OperationMessage::RevertConflict,
            OperationMessage::RevertAborted => OperationMessage::RevertAborted,
            OperationMessage::MergeCompleted => OperationMessage::MergeCompleted,
            OperationMessage::MergeFastForwarded => OperationMessage::MergeFastForwarded,
            OperationMessage::MergeAlreadyUpToDate => OperationMessage::MergeAlreadyUpToDate,
            OperationMessage::MergeConflict => OperationMessage::MergeConflict,
            OperationMessage::MergeAborted => OperationMessage::MergeAborted,
            OperationMessage::RebasingSelectedCommit => OperationMessage::RebasingSelectedCommit,
            OperationMessage::MergingSelectedCommit => OperationMessage::MergingSelectedCommit,
            OperationMessage::Continuing { kind } => OperationMessage::Continuing { kind: *kind },
            OperationMessage::Aborting { kind } => OperationMessage::Aborting { kind: *kind },
            OperationMessage::Text(text) => OperationMessage::Text(text@),
        }
    }
}

} // verus!
