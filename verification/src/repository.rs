//! What the handlers read of the open repository.
use crate::names::{holds, texts};
use crate::operation::OperationKind;
use crate::paths::{same_path, same_place};
use vstd::prelude::*;

verus! {

/// The states a repository can be in between two commands.
#[derive(Clone, Copy, Debug, PartialEq, Eq, Structural)]
pub enum RepositoryState {
    Clean,
    Merge,
    Revert,
    RevertSequence,
    CherryPick,
    CherryPickSequence,
    Bisect,
    Rebase,
    RebaseInteractive,
    RebaseMerge,
    ApplyMailbox,
    ApplyMailboxOrRebase,
}

impl RepositoryState {
    /// The operation that a repository in this state is in the middle of.
    pub open spec fn operation(self) -> Option<OperationKind> {
        if self is Rebase || self is RebaseInteractive || self is RebaseMerge
            || self is ApplyMailboxOrRebase {
            Some(OperationKind::Rebase)
        } else if self is CherryPick || self is CherryPickSequence {
            Some(OperationKind::Cherrypick)
        } else if self is Revert || self is RevertSequence {
            Some(OperationKind::Revert)
        } else if self is Merge {
            Some(OperationKind::Merge)
        } else {
            None
        }
    }

    /// The operation in progress, if there is one.
    pub fn active_operation(self) -> (kind: Option<OperationKind>)
        ensures
            kind == self.operation(),
    {
        match self {
            RepositoryState::Rebase
            | RepositoryState::RebaseInteractive
            | RepositoryState::RebaseMerge
            | RepositoryState::ApplyMailboxOrRebase => Some(OperationKind::Rebase),
            RepositoryState::CherryPick | RepositoryState::CherryPickSequence => Some(
                OperationKind::Cherrypick,
            ),
            RepositoryState::Revert | RepositoryState::RevertSequence => Some(
                OperationKind::Revert,
            ),
            RepositoryState::Merge => Some(OperationKind::Merge),
            _ => None,
        }
    }
}

/// A submodule: where it lives in the work tree, with `/` between the parts as git
/// writes it, and its name if it can be read.
#[derive(Debug, PartialEq)]
pub struct SubmoduleEntry {
    pub path: String,
    pub name: Option<String>,
}

/// The name of the first submodule at `path`. One without a readable name goes by
/// the path.
pub open spec fn submodule_at(submodules: Seq<SubmoduleEntry>, path: Seq<char>) -> Option<
    Seq<char>,
>
    decreases submodules.len(),
{
    if submodules.len() == 0 {
        None
    } else if same_place(submodules[0].path@, path) {
        match submodules[0].name {
            Some(name) => Some(name@),
            None => Some(path),
        }
    } else {
        submodule_at(submodules.drop_first(), path)
    }
}

/// What the host read of the repository before it passed a key press on.
#[derive(Debug, PartialEq)]
pub struct RepoSnapshot {
    pub state: RepositoryState,
    pub rebase_in_progress: bool,
    pub cherrypick_in_progress: bool,
    pub revert_in_progress: bool,
    pub merge_in_progress: bool,
    /// The checked-out branch; `None` when `HEAD` is detached.
    pub current_branch: Option<String>,
    /// The remote that transfers use unless told otherwise.
    pub default_remote: Option<String>,
    /// The branches among those on screen that are local.
    pub local_branches: Vec<String>,
    /// The submodules; `None` when they cannot be listed.
    pub submodules: Option<Vec<SubmoduleEntry>>,
}

/// The text of an optional string.
pub open spec fn text_of(text: Option<String>) -> Option<Seq<char>> {
    match text {
        Some(text) => Some(text@),
        None => None,
    }
}

impl RepoSnapshot {
    /// Some operation has been started and not finished.
    pub open spec fn busy(self) -> bool {
        self.rebase_in_progress || self.cherrypick_in_progress || self.revert_in_progress
            || self.merge_in_progress
    }

    /// The name of the submodule at a path, if it is one.
    pub open spec fn submodule(self, path: Seq<char>) -> Option<Seq<char>> {
        match self.submodules {
            Some(list) => submodule_at(list@, path),
            None => None,
        }
    }

    /// Whether some operation has been started and not finished.
    pub fn is_busy(&self) -> (busy: bool)
        ensures
            busy == self.busy(),
    {
        self.rebase_in_progress || self.cherrypick_in_progress || self.revert_in_progress
            || self.merge_in_progress
    }

    /// Whether a branch is local.
    pub fn has_local_branch(&self, name: &String) -> (local: bool)
        ensures
            local == texts(self.local_branches@).contains(name@),
    {
        holds(&self.local_branches, name)
    }

    /// The name of the submodule that a status entry stands for, if it is one.
    pub fn submodule_name_for_status_path(&self, path: &String) -> (name: Option<String>)
        ensures
            text_of(name) == self.submodule(path@),
    {
        let list = match &self.submodules {
            Some(list) => list,
            None => {
                return None;
            },
        };
        let mut i: usize = 0;
        assert(list@.skip(0) =~= list@);
        while i < list.len()
            invariant
                i <= list.len(),
                submodule_at(list@, path@) == submodule_at(list@.skip(i as int), path@),
                self.submodules == Some(*list),
            decreases list.len() - i,
        {
            assert(list@.skip(i as int)[0] == list@[i as int]);
            assert(list@.skip(i as int).drop_first() =~= list@.skip(i + 1));
            if same_path(&list[i].path, path) {
                return match &list[i].name {
                    Some(name) => Some(name.clone()),
                    None => Some(path.clone()),
                };
            }
            i += 1;
        }
        None
    }
}

} // verus!
