//! What part of the screen is showing and which part of it has the keyboard.
use vstd::prelude::*;

verus! {

/// The main view.
#[derive(Clone, Copy, Debug, PartialEq, Eq, Structural)]
pub enum Viewport {
    Graph,
    Viewer,
    Splash,
    Settings,
}

/// The pane or modal that receives key presses.
#[derive(Clone, Copy, Debug, PartialEq, Eq, Structural)]
pub enum Focus {
    Viewport,
    Inspector,
    StatusTop,
    StatusBottom,
    Search,
    Branches,
    Tags,
    Stashes,
    Reflogs,
    Worktrees,
    Submodules,
    ModalNetworkProgress,
    ModalAuth,
    ModalOperationProgress,
    ModalOperationSuccess,
    ModalOperationConflict,
    ModalGrep,
    ModalFileSearch,
    ModalCheckout,
    ModalCommit,
    ModalCreateBranch,
    ModalRenameBranch,
    ModalSolo,
    ModalDeleteBranch,
    ModalTag,
    ModalDeleteTag,
    ModalCherrypick,
    ModalRevert,
    /// Any other modal. The handlers of this crate never set it.
    Other,
}

impl Focus {
    /// The focus is on the viewport or on one of the panes around it.
    pub open spec fn on_pane(self) -> bool {
        self is Viewport || self is Inspector || self is StatusTop || self is StatusBottom
            || self is Search || self is Branches || self is Tags || self is Stashes
            || self is Reflogs || self is Worktrees || self is Submodules
    }
}

/// The field of the authentication modal being edited.
#[derive(Clone, Copy, Debug, PartialEq, Eq, Structural)]
pub enum AuthInputField {
    Username,
    Secret,
}

/// What choosing a branch in the branch modal does.
#[derive(Clone, Copy, Debug, PartialEq, Eq, Structural)]
pub enum BranchModalAction {
    Solo,
    Rename,
}

} // verus!
