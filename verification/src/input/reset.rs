//! Resetting to a commit and resetting files.
use crate::app::{App, AppView};
use crate::effect::{Effect, GitCommand, ResetMode};
use crate::repository::text_of;
use crate::screen::{Focus, Viewport};
use vstd::prelude::*;

verus! {

impl AppView {
    /// The graph resets to the selected commit.
    pub open spec fn reset_to_selection(self, mode: ResetMode) -> AppView {
        match self.panes.cursor.oid {
            Some(oid) if self.repo is Some && self.on_graph() => self.queue(
                Effect::Run(GitCommand::Reset { oid, mode }),
            ),
            _ => self,
        }
    }

    /// A hard reset works on the selected commit in the graph and on the selected
    /// file in the status panes.
    pub open spec fn after_hard_reset(self) -> AppView {
        if self.repo is Some && (self.focus is StatusTop || self.focus is StatusBottom) {
            match text_of(self.panes.selected_file) {
                Some(path) => self.queue(Effect::Run(GitCommand::ResetFile { path })),
                None => self,
            }
        } else {
            self.reset_to_selection(ResetMode::Hard)
        }
    }

    /// A mixed reset works on the selected commit in the graph only.
    pub open spec fn after_mixed_reset(self) -> AppView {
        self.reset_to_selection(ResetMode::Mixed)
    }
}

impl App {
    fn reset_to_selected_commit(&mut self, mode: ResetMode)
        ensures
            final(self)@ == old(self)@.reset_to_selection(mode),
    {
        if self.repo.is_none() || self.focus != Focus::Viewport || self.viewport
            != Viewport::Graph {
            return ;
        }
        match self.panes.cursor.oid {
            Some(oid) => {
                self.emit(Effect::Run(GitCommand::Reset { oid, mode }));
            },
            None => {},
        }
    }

    /// Resets hard: the work tree to the selected commit, or the selected file.
    pub fn on_hard_reset(&mut self)
        ensures
            final(self)@ == old(self)@.after_hard_reset(),
    {
        if self.repo.is_none() {
            return ;
        }
        match self.focus {
            Focus::StatusTop | Focus::StatusBottom => {
                let path = match &self.panes.selected_file {
                    Some(path) => path.clone(),
                    None => {
                        return ;
                    },
                };
                self.emit(Effect::Run(GitCommand::ResetFile { path }));
            },
            _ => {
                self.reset_to_selected_commit(ResetMode::Hard);
            },
        }
    }

    /// Resets the index to the selected commit.
    pub fn on_mixed_reset(&mut self)
        ensures
            final(self)@ == old(self)@.after_mixed_reset(),
    {
        self.reset_to_selected_commit(ResetMode::Mixed);
    }
}

} // verus!
