//! Cherry-picking and reverting the selected commit.
use crate::app::{App, AppView};
use crate::message::{Draft, ErrorText, FailedAction, Subject};
use crate::screen::{Focus, Viewport};
use vstd::prelude::*;

verus! {

/// The subject that a commit's summary gives.
pub open spec fn subject_of(summary: Option<String>) -> Subject<Seq<char>> {
    match summary {
        Some(line) => Subject::Line(line@),
        None => Subject::Missing,
    }
}

impl AppView {
    /// The prompt for the message of a cherry-pick opens on the selected commit.
    pub open spec fn after_cherrypick(self) -> AppView {
        if self.repo is Some && self.on_graph() && self.graph_selected != 0
            && self.panes.cursor.oid is Some {
            match self.panes.cursor.commit {
                Ok(commit) => AppView {
                    pending_cherrypick_oid: self.panes.cursor.oid,
                    modal_input: Draft::Cherrypicked(subject_of(commit.summary)),
                    focus: Focus::ModalCherrypick,
                    ..self
                },
                Err(cause) => self.report_failure(FailedAction::Cherrypick, cause@),
            }
        } else {
            self
        }
    }

    /// The prompt for the message of a revert opens on the selected commit, unless it
    /// is a merge. While an operation is in progress, that one goes on instead.
    pub open spec fn after_revert(self) -> AppView {
        if !self.operations_open() {
            self
        } else if self.active_operation() is Some {
            self.after_continue_operation()
        } else if self.viewport is Graph && self.graph_selected != 0 && self.panes.cursor.oid
            is Some {
            match self.panes.cursor.commit {
                Ok(commit) => if commit.parent_count > 1 {
                    self.report(ErrorText::RevertMergeUnsupported)
                } else {
                    AppView {
                        pending_revert_oid: self.panes.cursor.oid,
                        modal_input: Draft::Reverted(subject_of(commit.summary)),
                        focus: Focus::ModalRevert,
                        ..self
                    }
                },
                Err(cause) => self.report_failure(FailedAction::Revert, cause@),
            }
        } else {
            self
        }
    }
}

fn subject(summary: &Option<String>) -> (subject: Subject)
    ensures
        subject@ == subject_of(*summary),
{
    match summary {
        Some(line) => Subject::Line(line.clone()),
        None => Subject::Missing,
    }
}

impl App {
    /// Cherry-picks the selected commit.
    pub fn on_cherrypick(&mut self)
        ensures
            final(self)@ == old(self)@.after_cherrypick(),
    {
        if self.viewport != Viewport::Graph || self.focus != Focus::Viewport
            || self.graph_selected == 0 || self.repo.is_none() {
            return ;
        }
        let oid = match self.panes.cursor.oid {
            Some(oid) => oid,
            None => {
                return ;
            },
        };
        let found = match &self.panes.cursor.commit {
            Ok(commit) => Ok(subject(&commit.summary)),
            Err(cause) => Err(cause.clone()),
        };
        match found {
            Ok(subject) => {
                self.pending_cherrypick_oid = Some(oid);
                self.modal_input = Draft::Cherrypicked(subject);
                self.focus = Focus::ModalCherrypick;
            },
            Err(cause) => {
                self.show_failure(FailedAction::Cherrypick, cause);
            },
        }
    }

    /// Reverts the selected commit, or goes on with what is in progress.
    pub fn on_revert(&mut self)
        ensures
            final(self)@ == old(self)@.after_revert(),
    {
        let active = match &self.repo {
            Some(repo) => Self::active_operation_kind(repo),
            None => {
                return ;
            },
        };
        if self.is_in_settings_or_viewer() || self.focus != Focus::Viewport {
            return ;
        }
        if active.is_some() {
            self.on_continue_operation();
            return ;
        }
        if self.viewport != Viewport::Graph || self.graph_selected == 0 {
            return ;
        }
        let oid = match self.panes.cursor.oid {
            Some(oid) => oid,
            None => {
                return ;
            },
        };
        let found = match &self.panes.cursor.commit {
            Ok(commit) => if commit.parent_count > 1 {
                Ok(None)
            } else {
                Ok(Some(subject(&commit.summary)))
            },
            Err(cause) => Err(cause.clone()),
        };
        match found {
            Ok(None) => {
                self.show_error(ErrorText::RevertMergeUnsupported);
            },
            Ok(Some(subject)) => {
                self.pending_revert_oid = Some(oid);
                self.modal_input = Draft::Reverted(subject);
                self.focus = Focus::ModalRevert;
            },
            Err(cause) => {
                self.show_failure(FailedAction::Revert, cause);
            },
        }
    }
}

} // verus!
