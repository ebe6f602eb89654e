//! Staging, unstaging and committing.
use crate::app::{App, AppView};
use crate::effect::{Effect, GitCommand, StagedFrom};
use crate::message::ErrorText;
use crate::repository::text_of;
use crate::screen::{Focus, Viewport};
use vstd::prelude::*;

verus! {

impl AppView {
    /// The name of the submodule at a path of the work tree, if it is one.
    pub open spec fn submodule(self, path: Seq<char>) -> Option<Seq<char>> {
        match self.repo {
            Some(repo) => repo.submodule(path),
            None => None,
        }
    }

    /// Unstaging works on everything from the viewport, on the selected file from the
    /// pane of staged files, and on the selected submodule from the submodule pane. A
    /// file that is a submodule is unstaged as one. Conflicts are left alone.
    pub open spec fn after_unstage(self) -> AppView {
        let file = self.panes.staged_file;
        if self.repo is None || self.viewport is Settings {
            self
        } else if self.focus is Viewport && self.panes.is_staged {
            self.queue(Effect::Run(GitCommand::UnstageAll))
        } else if self.focus is StatusTop && file.is_conflict {
            self.report(ErrorText::UnstageFileConflict)
        } else if self.focus is StatusTop && file.name is Some {
            let path = file.name->0@;
            match self.submodule(path) {
                Some(name) => self.queue(
                    Effect::Run(GitCommand::UnstageSubmodule { name, from: StagedFrom::Status }),
                ),
                None => self.queue(Effect::Run(GitCommand::UnstageFile { path })),
            }
        } else if self.focus is Submodules && self.panes.selected_submodule is Some {
            self.queue(
                Effect::Run(
                    GitCommand::UnstageSubmodule {
                        name: self.panes.selected_submodule->0@,
                        from: StagedFrom::SubmodulePane,
                    },
                ),
            )
        } else {
            self
        }
    }

    /// Staging is the mirror image, with the pane of unstaged files.
    pub open spec fn after_stage(self) -> AppView {
        let file = self.panes.unstaged_file;
        if self.repo is None || self.viewport is Settings {
            self
        } else if self.focus is Viewport && self.panes.is_unstaged {
            self.queue(Effect::Run(GitCommand::StageAll))
        } else if self.focus is StatusBottom && file.is_conflict {
            self.report(ErrorText::StageFileConflict)
        } else if self.focus is StatusBottom && file.name is Some {
            let path = file.name->0@;
            match self.submodule(path) {
                Some(name) => self.queue(
                    Effect::Run(GitCommand::StageSubmodule { name, from: StagedFrom::Status }),
                ),
                None => self.queue(Effect::Run(GitCommand::StageFile { path })),
            }
        } else if self.focus is Submodules && self.panes.selected_submodule is Some {
            self.queue(
                Effect::Run(
                    GitCommand::StageSubmodule {
                        name: self.panes.selected_submodule->0@,
                        from: StagedFrom::SubmodulePane,
                    },
                ),
            )
        } else {
            self
        }
    }

    /// The commit prompt opens if anything is staged.
    pub open spec fn after_commit(self) -> AppView {
        if self.panes.is_staged && !self.in_settings_or_viewer() {
            self.focusing(Focus::ModalCommit)
        } else {
            self
        }
    }
}

impl App {
    fn submodule_name(&self, path: &String) -> (name: Option<String>)
        ensures
            text_of(name) == self@.submodule(path@),
    {
        match &self.repo {
            Some(repo) => repo.submodule_name_for_status_path(path),
            None => None,
        }
    }

    /// Unstages what is selected.
    pub fn on_unstage(&mut self)
        ensures
            final(self)@ == old(self)@.after_unstage(),
    {
        if self.repo.is_none() || self.viewport == Viewport::Settings {
            return ;
        }
        match self.focus {
            Focus::Viewport => {
                if self.panes.is_staged {
                    self.emit(Effect::Run(GitCommand::UnstageAll));
                }
            },
            Focus::StatusTop => {
                if self.panes.staged_file.is_conflict {
                    self.show_error(ErrorText::UnstageFileConflict);
                    return ;
                }
                let path = match &self.panes.staged_file.name {
                    Some(path) => path.clone(),
                    None => {
                        return ;
                    },
                };
                match self.submodule_name(&path) {
                    Some(name) => {
                        let from = StagedFrom::Status;
                        self.emit(Effect::Run(GitCommand::UnstageSubmodule { name, from }));
                    },
                    None => {
                        self.emit(Effect::Run(GitCommand::UnstageFile { path }));
                    },
                }
            },
            Focus::Submodules => {
                let name = match &self.panes.selected_submodule {
                    Some(name) => name.clone(),
                    None => {
                        return ;
                    },
                };
                let from = StagedFrom::SubmodulePane;
                self.emit(Effect::Run(GitCommand::UnstageSubmodule { name, from }));
            },
            _ => {},
        }
    }

    /// Stages what is selected.
    pub fn on_stage(&mut self)
        ensures
            final(self)@ == old(self)@.after_stage(),
    {
        if self.repo.is_none() || self.viewport == Viewport::Settings {
            return ;
        }
        match self.focus {
            Focus::Viewport => {
                if self.panes.is_unstaged {
                    self.emit(Effect::Run(GitCommand::StageAll));
                }
            },
            Focus::StatusBottom => {
                if self.panes.unstaged_file.is_conflict {
                    self.show_error(ErrorText::StageFileConflict);
                    return ;
                }
                let path = match &self.panes.unstaged_file.name {
                    Some(path) => path.clone(),
                    None => {
                        return ;
                    },
                };
                match self.submodule_name(&path) {
                    Some(name) => {
                        let from = StagedFrom::Status;
                        self.emit(Effect::Run(GitCommand::StageSubmodule { name, from }));
                    },
                    None => {
                        self.emit(Effect::Run(GitCommand::StageFile { path }));
                    },
                }
            },
            Focus::Submodules => {
                let name = match &self.panes.selected_submodule {
                    Some(name) => name.clone(),
                    None => {
                        return ;
                    },
                };
                let from = StagedFrom::SubmodulePane;
                self.emit(Effect::Run(GitCommand::StageSubmodule { name, from }));
            },
            _ => {},
        }
    }

    /// Opens the commit prompt.
    pub fn on_commit(&mut self)
        ensures
            final(self)@ == old(self)@.after_commit(),
    {
        if self.is_in_settings_or_viewer() {
            return ;
        }
        if self.panes.is_staged {
            self.focus = Focus::ModalCommit;
        }
    }
}

} // verus!
