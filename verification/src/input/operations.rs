//! Rebase, merge, cherry-pick and revert: starting them, going on after a
//! conflict, giving them up, and showing how they went.
use crate::app::{App, AppView};
use crate::effect::{Effect, OperationStep};
use crate::message::{ErrorText, FailedAction};
use crate::operation::{
    CherrypickOutcome, MergeOutcome, OperationKind, OperationMessage, PendingOperationAction,
    RebaseOutcome, RevertOutcome,
};
use crate::repository::{RepoSnapshot, RepositoryState};
use crate::screen::{Focus, Viewport};
use vstd::prelude::*;

verus! {

impl AppView {
    /// An operation went through, or was given up as asked.
    pub open spec fn operation_done(
        self,
        kind: OperationKind,
        message: OperationMessage<Seq<char>>,
    ) -> AppView {
        AppView {
            modal_operation_kind: kind,
            modal_operation_message: message,
            focus: Focus::ModalOperationSuccess,
            ..self
        }.queue(Effect::Reload)
    }

    /// An operation stopped at a conflict.
    pub open spec fn operation_conflict(
        self,
        kind: OperationKind,
        message: OperationMessage<Seq<char>>,
    ) -> AppView {
        AppView {
            modal_operation_kind: kind,
            modal_operation_message: message,
            focus: Focus::ModalOperationConflict,
            ..self
        }.queue(Effect::Reload)
    }

    /// An operation failed. The repository may have changed all the same, so it is
    /// read anew.
    pub open spec fn operation_failed(
        self,
        kind: OperationKind,
        action: FailedAction,
        cause: Seq<char>,
    ) -> AppView {
        AppView {
            modal_operation_kind: kind,
            modal_operation_message: OperationMessage::Empty,
            focus: Focus::Viewport,
            ..self
        }.report_failure(action, cause).queue(Effect::Reload)
    }

    /// A rebase, or a step of one, is done.
    pub open spec fn rebase_ended(self, result: Result<RebaseOutcome, String>) -> AppView {
        let kind = OperationKind::Rebase;
        match result {
            Ok(RebaseOutcome::Completed { applied }) => self.operation_done(
                kind,
                OperationMessage::RebaseCompleted { applied },
            ),
            Ok(RebaseOutcome::Conflict) => self.operation_conflict(
                kind,
                OperationMessage::RebaseConflict,
            ),
            Ok(RebaseOutcome::Aborted) => self.operation_done(
                kind,
                OperationMessage::RebaseAborted,
            ),
            Err(cause) => self.operation_failed(kind, FailedAction::Rebase, cause@),
        }
    }

    /// A cherry-pick, or a step of one, is done.
    pub open spec fn cherrypick_ended(self, result: Result<CherrypickOutcome, String>) -> AppView {
        let kind = OperationKind::Cherrypick;
        match result {
            Ok(CherrypickOutcome::Committed) => self.operation_done(
                kind,
                OperationMessage::CherrypickCompleted,
            ),
            Ok(CherrypickOutcome::Conflict) => self.operation_conflict(
                kind,
                OperationMessage::CherrypickConflict,
            ),
            Ok(CherrypickOutcome::Aborted) => self.operation_done(
                kind,
                OperationMessage::CherrypickAborted,
            ),
            Err(cause) => self.operation_failed(kind, FailedAction::Cherrypick, cause@),
        }
    }

    /// A revert, or a step of one, is done.
    pub open spec fn revert_ended(self, result: Result<RevertOutcome, String>) -> AppView {
        let kind = OperationKind::Revert;
        match result {
            Ok(RevertOutcome::Committed) => self.operation_done(
                kind,
                OperationMessage::RevertCompleted,
            ),
            Ok(RevertOutcome::Conflict) => self.operation_conflict(
                kind,
                OperationMessage::RevertConflict,
            ),
            Ok(RevertOutcome::Aborted) => self.operation_done(
                kind,
                OperationMessage::RevertAborted,
            ),
            Err(cause) => self.operation_failed(kind, FailedAction::Revert, cause@),
        }
    }

    /// A merge, or a step of one, is done.
    pub open spec fn merge_ended(self, result: Result<MergeOutcome, String>) -> AppView {
        let kind = OperationKind::Merge;
        match result {
            Ok(MergeOutcome::Completed) => self.operation_done(
                kind,
                OperationMessage::MergeCompleted,
            ),
            Ok(MergeOutcome::FastForward) => self.operation_done(
                kind,
                OperationMessage::MergeFastForwarded,
            ),
            Ok(MergeOutcome::UpToDate) => self.operation_done(
                kind,
                OperationMessage::MergeAlreadyUpToDate,
            ),
            Ok(MergeOutcome::Conflict) => self.operation_conflict(
                kind,
                OperationMessage::MergeConflict,
            ),
            Ok(MergeOutcome::Aborted) => self.operation_done(
                kind,
                OperationMessage::MergeAborted,
            ),
            Err(cause) => self.operation_failed(kind, FailedAction::Merge, cause@),
        }
    }

    /// The confirmed step is taken up: it is pending no more, and the repository is
    /// opened for it.
    pub open spec fn pending_operation_run(self) -> AppView {
        let taken = AppView { pending_operation_action: None, ..self };
        match self.pending_operation_action {
            Some(action) => if self.repo is Some {
                taken.queue(Effect::OpenForOperation(action))
            } else {
                taken.focusing(Focus::Viewport).report(ErrorText::OperationNoRepository)
            },
            None => self,
        }
    }

    /// A step that cannot be taken: the reason is shown over the viewport.
    pub open spec fn operation_refused(self, text: ErrorText<Seq<char>>) -> AppView {
        self.focusing(Focus::Viewport).report(text)
    }

    /// The repository was opened for a confirmed step and is in the given state, or
    /// could not be opened. Cherry-picks and reverts need a message and are not
    /// started from here.
    pub open spec fn operation_opened(
        self,
        action: PendingOperationAction,
        opened: Result<RepositoryState, String>,
    ) -> AppView {
        match opened {
            Err(cause) => self.operation_refused(
                ErrorText::Failed { action: FailedAction::OpenRepository, cause: cause@ },
            ),
            Ok(state) => match action {
                PendingOperationAction::Start { kind, oid } => match kind {
                    OperationKind::Rebase => self.queue(
                        Effect::Operate(OperationStep::StartRebase { oid }),
                    ),
                    OperationKind::Merge => self.queue(
                        Effect::Operate(OperationStep::StartMerge { oid }),
                    ),
                    OperationKind::Cherrypick => self.operation_refused(
                        ErrorText::CherrypickNoMessage,
                    ),
                    OperationKind::Revert => self.operation_refused(ErrorText::RevertNoMessage),
                },
                PendingOperationAction::Continue => match state.operation() {
                    Some(kind) => self.queue(Effect::Operate(OperationStep::Continue { kind })),
                    None => self.operation_refused(ErrorText::ContinueNoOperation),
                },
                PendingOperationAction::Abort => match state.operation() {
                    Some(kind) => self.queue(Effect::Operate(OperationStep::Abort { kind })),
                    None => self.operation_refused(ErrorText::AbortNoOperation),
                },
            },
        }
    }

    /// A step is pending and the progress modal is up.
    pub open spec fn operation_pending(
        self,
        action: PendingOperationAction,
        kind: OperationKind,
        message: OperationMessage<Seq<char>>,
    ) -> AppView {
        AppView {
            pending_operation_action: Some(action),
            modal_operation_kind: kind,
            modal_operation_message: message,
            focus: Focus::ModalOperationProgress,
            ..self
        }
    }

    /// Operations are open to the user: a repository is open, the viewport has the
    /// focus, and neither the settings nor the viewer is showing.
    pub open spec fn operations_open(self) -> bool {
        self.repo is Some && self.focus is Viewport && !self.in_settings_or_viewer()
    }

    /// The operation in progress is to go on.
    pub open spec fn after_continue_operation(self) -> AppView {
        match self.active_operation() {
            Some(kind) if self.operations_open() => self.operation_pending(
                PendingOperationAction::Continue,
                kind,
                OperationMessage::Continuing { kind },
            ),
            _ => self,
        }
    }

    /// The operation in progress is to be given up.
    pub open spec fn after_abort_operation(self) -> AppView {
        match self.active_operation() {
            Some(kind) if self.operations_open() => self.operation_pending(
                PendingOperationAction::Abort,
                kind,
                OperationMessage::Aborting { kind },
            ),
            _ => self,
        }
    }

    /// A rebase or merge with the selected commit is to start. While some operation
    /// is in progress, that one goes on instead.
    pub open spec fn after_start(
        self,
        kind: OperationKind,
        message: OperationMessage<Seq<char>>,
    ) -> AppView {
        if !self.operations_open() {
            self
        } else if self.repo->0.busy() {
            self.after_continue_operation()
        } else if self.viewport is Graph && self.graph_selected != 0 && self.panes.cursor.oid
            is Some {
            self.operation_pending(
                PendingOperationAction::Start { kind, oid: self.panes.cursor.oid->0 },
                kind,
                message,
            )
        } else {
            self
        }
    }

    /// The rebase key was pressed.
    pub open spec fn after_rebase(self) -> AppView {
        self.after_start(OperationKind::Rebase, OperationMessage::RebasingSelectedCommit)
    }

    /// The merge key was pressed.
    pub open spec fn after_merge(self) -> AppView {
        self.after_start(OperationKind::Merge, OperationMessage::MergingSelectedCommit)
    }
}

impl App {
    /// The operation the repository is in the middle of.
    pub fn active_operation_kind(repo: &RepoSnapshot) -> (kind: Option<OperationKind>)
        ensures
            kind == repo.state.operation(),
    {
        repo.state.active_operation()
    }

    /// Takes up the step the user confirmed.
    pub fn run_pending_operation_action(&mut self)
        ensures
            final(self)@ == old(self)@.pending_operation_run(),
    {
        let action = match self.pending_operation_action.take() {
            Some(action) => action,
            None => {
                return ;
            },
        };
        if self.repo.is_none() {
            self.focus = Focus::Viewport;
            self.show_error(ErrorText::OperationNoRepository);
            return ;
        }
        self.emit(Effect::OpenForOperation(action));
    }

    /// Goes on with a confirmed step once the repository has been opened for it.
    pub fn operation_repository_opened(
        &mut self,
        action: PendingOperationAction,
        opened: Result<RepositoryState, String>,
    )
        ensures
            final(self)@ == old(self)@.operation_opened(action, opened),
    {
        let state = match opened {
            Ok(state) => state,
            Err(cause) => {
                self.focus = Focus::Viewport;
                self.show_failure(FailedAction::OpenRepository, cause);
                return ;
            },
        };
        match action {
            PendingOperationAction::Start { kind, oid } => match kind {
                OperationKind::Rebase => {
                    self.emit(Effect::Operate(OperationStep::StartRebase { oid }));
                },
                OperationKind::Merge => {
                    self.emit(Effect::Operate(OperationStep::StartMerge { oid }));
                },
                OperationKind::Cherrypick => {
                    self.focus = Focus::Viewport;
                    self.show_error(ErrorText::CherrypickNoMessage);
                },
                OperationKind::Revert => {
                    self.focus = Focus::Viewport;
                    self.show_error(ErrorText::RevertNoMessage);
                },
            },
            PendingOperationAction::Continue => {
                self.continue_active_operation(state);
            },
            PendingOperationAction::Abort => {
                self.abort_active_operation(state);
            },
        }
    }

    fn continue_active_operation(&mut self, state: RepositoryState)
        ensures
            final(self)@ == old(self)@.operation_opened(
                PendingOperationAction::Continue,
                Ok(state),
            ),
    {
        match state.active_operation() {
            Some(kind) => {
                self.emit(Effect::Operate(OperationStep::Continue { kind }));
            },
            None => {
                self.focus = Focus::Viewport;
                self.show_error(ErrorText::ContinueNoOperation);
            },
        }
    }

    fn abort_active_operation(&mut self, state: RepositoryState)
        ensures
            final(self)@ == old(self)@.operation_opened(PendingOperationAction::Abort, Ok(state)),
    {
        match state.active_operation() {
            Some(kind) => {
                self.emit(Effect::Operate(OperationStep::Abort { kind }));
            },
            None => {
                self.focus = Focus::Viewport;
                self.show_error(ErrorText::AbortNoOperation);
            },
        }
    }

    /// Shows how a rebase went.
    pub fn handle_rebase_result(&mut self, result: Result<RebaseOutcome, String>)
        ensures
            final(self)@ == old(self)@.rebase_ended(result),
    {
        let kind = OperationKind::Rebase;
        match result {
            Ok(RebaseOutcome::Completed { applied }) => {
                self.show_operation_success(kind, OperationMessage::RebaseCompleted { applied });
            },
            Ok(RebaseOutcome::Conflict) => {
                self.show_operation_conflict(kind, OperationMessage::RebaseConflict);
            },
            Ok(RebaseOutcome::Aborted) => {
                self.show_operation_success(kind, OperationMessage::RebaseAborted);
            },
            Err(cause) => {
                self.show_operation_failure(kind, FailedAction::Rebase, cause);
            },
        }
    }

    /// Shows how a cherry-pick went.
    pub fn handle_cherrypick_result(&mut self, result: Result<CherrypickOutcome, String>)
        ensures
            final(self)@ == old(self)@.cherrypick_ended(result),
    {
        let kind = OperationKind::Cherrypick;
        match result {
            Ok(CherrypickOutcome::Committed) => {
                self.show_operation_success(kind, OperationMessage::CherrypickCompleted);
            },
            Ok(CherrypickOutcome::Conflict) => {
                self.show_operation_conflict(kind, OperationMessage::CherrypickConflict);
            },
            Ok(CherrypickOutcome::Aborted) => {
                self.show_operation_success(kind, OperationMessage::CherrypickAborted);
            },
            Err(cause) => {
                self.show_operation_failure(kind, FailedAction::Cherrypick, cause);
            },
        }
    }

    /// Shows how a revert went.
    pub fn handle_revert_result(&mut self, result: Result<RevertOutcome, String>)
        ensures
            final(self)@ == old(self)@.revert_ended(result),
    {
        let kind = OperationKind::Revert;
        match result {
            Ok(RevertOutcome::Committed) => {
                self.show_operation_success(kind, OperationMessage::RevertCompleted);
            },
            Ok(RevertOutcome::Conflict) => {
                self.show_operation_conflict(kind, OperationMessage::RevertConflict);
            },
            Ok(RevertOutcome::Aborted) => {
                self.show_operation_success(kind, OperationMessage::RevertAborted);
            },
            Err(cause) => {
                self.show_operation_failure(kind, FailedAction::Revert, cause);
            },
        }
    }

    /// Shows how a merge went.
    pub fn handle_merge_result(&mut self, result: Result<MergeOutcome, String>)
        ensures
            final(self)@ == old(self)@.merge_ended(result),
    {
        let kind = OperationKind::Merge;
        match result {
            Ok(MergeOutcome::Completed) => {
                self.show_operation_success(kind, OperationMessage::MergeCompleted);
            },
            Ok(MergeOutcome::FastForward) => {
                self.show_operation_success(kind, OperationMessage::MergeFastForwarded);
            },
            Ok(MergeOutcome::UpToDate) => {
                self.show_operation_success(kind, OperationMessage::MergeAlreadyUpToDate);
            },
            Ok(MergeOutcome::Conflict) => {
                self.show_operation_conflict(kind, OperationMessage::MergeConflict);
            },
            Ok(MergeOutcome::Aborted) => {
                self.show_operation_success(kind, OperationMessage::MergeAborted);
            },
            Err(cause) => {
                self.show_operation_failure(kind, FailedAction::Merge, cause);
            },
        }
    }

    fn show_operation_success(&mut self, kind: OperationKind, message: OperationMessage)
        ensures
            final(self)@ == old(self)@.operation_done(kind, message@),
    {
        self.modal_operation_kind = kind;
        self.modal_operation_message = message;
        self.focus = Focus::ModalOperationSuccess;
        self.reload();
    }

    fn show_operation_failure(&mut self, kind: OperationKind, action: FailedAction, cause: String)
        ensures
            final(self)@ == old(self)@.operation_failed(kind, action, cause@),
    {
        self.modal_operation_kind = kind;
        self.modal_operation_message = OperationMessage::Empty;
        self.focus = Focus::Viewport;
        self.show_failure(action, cause);
        self.reload();
    }

    /// Shows that an operation stopped at a conflict.
    pub fn show_operation_conflict(&mut self, kind: OperationKind, message: OperationMessage)
        ensures
            final(self)@ == old(self)@.operation_conflict(kind, message@),
    {
        self.modal_operation_kind = kind;
        self.modal_operation_message = message;
        self.focus = Focus::ModalOperationConflict;
        self.reload();
    }

    fn set_pending_operation(
        &mut self,
        action: PendingOperationAction,
        kind: OperationKind,
        message: OperationMessage,
    )
        ensures
            final(self)@ == old(self)@.operation_pending(action, kind, message@),
    {
        self.pending_operation_action = Some(action);
        self.modal_operation_kind = kind;
        self.modal_operation_message = message;
        self.focus = Focus::ModalOperationProgress;
    }

    fn start_operation(&mut self, kind: OperationKind, message: OperationMessage)
        ensures
            final(self)@ == old(self)@.after_start(kind, message@),
    {
        let busy = match &self.repo {
            Some(repo) => repo.is_busy(),
            None => {
                return ;
            },
        };
        if self.is_in_settings_or_viewer() || self.focus != Focus::Viewport {
            return ;
        }
        if busy {
            self.on_continue_operation();
            return ;
        }
        if self.viewport != Viewport::Graph || self.graph_selected == 0 {
            return ;
        }
        match self.panes.cursor.oid {
            Some(oid) => {
                self.set_pending_operation(
                    PendingOperationAction::Start { kind, oid },
                    kind,
                    message,
                );
            },
            None => {},
        }
    }

    /// Rebases onto the selected commit, or goes on with what is in progress.
    pub fn on_rebase(&mut self)
        ensures
            final(self)@ == old(self)@.after_rebase(),
    {
        self.start_operation(OperationKind::Rebase, OperationMessage::RebasingSelectedCommit);
    }

    /// Merges the selected commit, or goes on with what is in progress.
    pub fn on_merge(&mut self)
        ensures
            final(self)@ == old(self)@.after_merge(),
    {
        self.start_operation(OperationKind::Merge, OperationMessage::MergingSelectedCommit);
    }

    /// Goes on with the operation in progress.
    pub fn on_continue_operation(&mut self)
        ensures
            final(self)@ == old(self)@.after_continue_operation(),
    {
        let kind = match &self.repo {
            Some(repo) => Self::active_operation_kind(repo),
            None => None,
        };
        if self.is_in_settings_or_viewer() || self.focus != Focus::Viewport {
            return ;
        }
        match kind {
            Some(kind) => {
                self.set_pending_operation(
                    PendingOperationAction::Continue,
                    kind,
                    OperationMessage::Continuing { kind },
                );
            },
            None => {},
        }
    }

    /// Gives up the operation in progress.
    pub fn on_abort_operation(&mut self)
        ensures
            final(self)@ == old(self)@.after_abort_operation(),
    {
        let kind = match &self.repo {
            Some(repo) => Self::active_operation_kind(repo),
            None => None,
        };
        if self.is_in_settings_or_viewer() || self.focus != Focus::Viewport {
            return ;
        }
        match kind {
            Some(kind) => {
                self.set_pending_operation(
                    PendingOperationAction::Abort,
                    kind,
                    OperationMessage::Aborting { kind },
                );
            },
            None => {},
        }
    }
}

} // verus!
