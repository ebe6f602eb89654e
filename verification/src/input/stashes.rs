//! Stashes.
use crate::app::{App, AppView};
use crate::effect::{Effect, GitCommand};
use crate::message::FailedAction;
use crate::screen::{Focus, Viewport};
use git2::Oid;
use vstd::prelude::*;

verus! {

impl AppView {
    /// The stash that dropping and popping work on: the selected row of the graph if
    /// it is one, or the selection of the stash pane.
    pub open spec fn chosen_stash(self) -> Option<Oid> {
        if self.repo is None || !(self.viewport is Graph) {
            None
        } else {
            match self.focus {
                Focus::Viewport => match self.panes.cursor.row {
                    Some(row) if row.is_stash => Some(row.oid),
                    _ => None,
                },
                Focus::Stashes => self.panes.selected_stash,
                _ => None,
            }
        }
    }

    /// The chosen stash is thrown away.
    pub open spec fn after_drop(self) -> AppView {
        match self.chosen_stash() {
            Some(oid) => self.queue(Effect::Run(GitCommand::DropStash { oid })),
            None => self,
        }
    }

    /// The chosen stash is applied and thrown away.
    pub open spec fn after_pop(self) -> AppView {
        match self.chosen_stash() {
            Some(oid) => self.queue(Effect::Run(GitCommand::PopStash { oid })),
            None => self,
        }
    }

    /// The uncommitted changes are stashed, from the graph only.
    pub open spec fn after_stash(self) -> AppView {
        if self.repo is Some && self.on_graph() {
            self.queue(Effect::Run(GitCommand::Stash))
        } else {
            self
        }
    }
}

impl App {
    fn stash_at_selection(&self) -> (stash: Option<Oid>)
        ensures
            stash == self@.chosen_stash(),
    {
        if self.repo.is_none() || self.viewport != Viewport::Graph {
            return None;
        }
        match self.focus {
            Focus::Viewport => match &self.panes.cursor.row {
                Some(row) => if row.is_stash {
                    Some(row.oid)
                } else {
                    None
                },
                None => None,
            },
            Focus::Stashes => self.panes.selected_stash,
            _ => None,
        }
    }

    /// Throws the chosen stash away.
    pub fn on_drop(&mut self)
        ensures
            final(self)@ == old(self)@.after_drop(),
    {
        match self.stash_at_selection() {
            Some(oid) => {
                self.emit(Effect::Run(GitCommand::DropStash { oid }));
            },
            None => {},
        }
    }

    /// Applies the chosen stash and throws it away.
    pub fn on_pop(&mut self)
        ensures
            final(self)@ == old(self)@.after_pop(),
    {
        match self.stash_at_selection() {
            Some(oid) => {
                self.emit(Effect::Run(GitCommand::PopStash { oid }));
            },
            None => {},
        }
    }

    /// Stashes the uncommitted changes.
    pub fn on_stash(&mut self)
        ensures
            final(self)@ == old(self)@.after_stash(),
    {
        if self.repo.is_some() && self.viewport == Viewport::Graph && self.focus
            == Focus::Viewport {
            self.emit(Effect::Run(GitCommand::Stash));
        }
    }

    /// Reports that the repository could not be opened anew for a stash command.
    pub fn stash_repository_failed(&mut self, cause: String)
        ensures
            final(self)@ == old(self)@.report_failure(FailedAction::OpenRepository, cause@),
    {
        self.show_failure(FailedAction::OpenRepository, cause);
    }
}

} // verus!
