//! Creating, renaming and deleting branches.
use crate::app::{App, AppView};
use crate::effect::{Effect, GitCommand};
use crate::message::{Draft, ErrorText};
use crate::names::texts;
use crate::request::NetworkRequest;
use crate::screen::{BranchModalAction, Focus, Viewport};
use crate::text::{halves, split_once};
use git2::Oid;
use vstd::prelude::*;

verus! {

/// The remote and the branch that the name of a remote branch stands for. A name
/// without a slash is taken for a branch of `origin`.
pub open spec fn remote_branch(name: Seq<char>) -> (Seq<char>, Seq<char>) {
    match halves(name, '/') {
        Some(parts) => parts,
        None => ("origin"@, name),
    }
}

impl AppView {
    /// A new branch is to point at a reflog entry when the reflog has the focus, and
    /// at the selected commit otherwise.
    pub open spec fn after_create_branch(self) -> AppView {
        let entries = self.panes.reflog_targets@;
        let selected = self.panes.reflogs_selected;
        if self.in_settings_or_viewer() {
            self
        } else if self.focus is Reflogs {
            if selected < entries.len() {
                AppView {
                    pending_branch_target_oid: Some(entries[selected as int]),
                    focus: Focus::ModalCreateBranch,
                    ..self
                }
            } else {
                self
            }
        } else if self.graph_selected != 0 {
            AppView {
                pending_branch_target_oid: None,
                focus: Focus::ModalCreateBranch,
                ..self
            }
        } else {
            self
        }
    }

    /// Where a new branch would point.
    pub open spec fn branch_target(self) -> Option<Oid> {
        match self.pending_branch_target_oid {
            Some(oid) => Some(oid),
            None => if self.graph_selected != 0 {
                self.panes.cursor.oid
            } else {
                None
            },
        }
    }

    /// The rename prompt is open for a branch and starts from its name.
    pub open spec fn renaming(self, branch: Seq<char>) -> AppView {
        AppView {
            modal_input: Draft::Text(branch),
            modal_rename_branch_source: Some(branch),
            focus: Focus::ModalRenameBranch,
            ..self
        }
    }

    /// Only local branches can be renamed: the one the branch pane is on, or the one
    /// on the selected commit. Where the commit has several the user chooses, and
    /// where it has none at all nothing happens.
    pub open spec fn after_rename_branch(self) -> AppView {
        let cursor = self.panes.cursor;
        let local = texts(cursor.local_branch_choices@);
        if self.repo is None || self.in_settings_or_viewer() {
            self
        } else if self.focus is Branches {
            match self.panes.selected_branch {
                Some(branch) => if self.is_local_branch(branch@) {
                    self.renaming(branch@)
                } else {
                    self.report(ErrorText::RenameBranchLocalOnly)
                },
                None => self,
            }
        } else if self.on_graph() && self.graph_selected != 0 && cursor.alias is Some
            && cursor.branch_choices@.len() > 0 {
            if local.len() == 0 {
                self.report(ErrorText::RenameBranchLocalOnly)
            } else if local.len() == 1 {
                self.renaming(local[0])
            } else {
                AppView {
                    modal_branch_action: BranchModalAction::Rename,
                    modal_solo_selected: 0,
                    focus: Focus::ModalSolo,
                    ..self
                }
            }
        } else {
            self
        }
    }

    /// A branch is deleted: by git if it is local, and on its remote if not.
    pub open spec fn deleting(self, branch: Seq<char>) -> AppView {
        let (remote_name, remote_branch) = remote_branch(branch);
        if self.repo is None {
            self
        } else if self.is_local_branch(branch) {
            self.queue(Effect::Run(GitCommand::DeleteBranch { branch }))
        } else if remote_name.len() == 0 || remote_branch.len() == 0 {
            self.report(ErrorText::DeleteBranchInvalidRemote)
        } else {
            AppView { modal_delete_branch_selected: 0, ..self }.started(
                NetworkRequest::DeleteRemoteBranch {
                    repo_path: self.repo_path(),
                    remote_name,
                    branch: remote_branch,
                },
            )
        }
    }

    /// Deleting the checked-out branch would leave `HEAD` invalid. The branch pane
    /// refuses to; in the graph that branch is no choice. Where several are left the
    /// user chooses.
    pub open spec fn after_delete_branch(self) -> AppView {
        let choices = self.panes.deletable(self.current_branch());
        if self.repo is None || self.in_settings_or_viewer() {
            self
        } else if self.focus is Branches {
            match self.panes.branch_row() {
                Some((_, branch, _)) => if self.current_branch() == Some(branch) {
                    self.report(ErrorText::DeleteBranchCurrent)
                } else {
                    self.deleting(branch)
                },
                None => self,
            }
        } else if self.focus is Viewport && self.graph_selected != 0 && self.panes.cursor.alias
            is Some {
            if choices.len() == 0 {
                self
            } else if choices.len() == 1 {
                self.deleting(choices[0])
            } else {
                self.focusing(Focus::ModalDeleteBranch)
            }
        } else {
            self
        }
    }
}

impl App {
    /// Opens the prompt for a new branch.
    pub fn on_create_branch(&mut self)
        ensures
            final(self)@ == old(self)@.after_create_branch(),
    {
        if self.is_in_settings_or_viewer() {
            return ;
        }
        match self.focus {
            Focus::Reflogs => {
                if self.panes.reflogs_selected < self.panes.reflog_targets.len() {
                    self.pending_branch_target_oid = Some(
                        self.panes.reflog_targets[self.panes.reflogs_selected],
                    );
                    self.focus = Focus::ModalCreateBranch;
                }
            },
            _ => {
                if self.graph_selected != 0 {
                    self.pending_branch_target_oid = None;
                    self.focus = Focus::ModalCreateBranch;
                }
            },
        }
    }

    /// Where a new branch would point.
    pub fn selected_branch_target_oid(&self) -> (target: Option<Oid>)
        ensures
            target == self@.branch_target(),
    {
        if let Some(oid) = self.pending_branch_target_oid {
            return Some(oid);
        }
        if self.graph_selected != 0 {
            self.panes.cursor.oid
        } else {
            None
        }
    }

    /// Forgets the reflog entry a new branch was to point at.
    pub fn clear_pending_branch_target(&mut self)
        ensures
            final(self)@ == (AppView { pending_branch_target_oid: None, ..old(self)@ }),
    {
        self.pending_branch_target_oid = None;
    }

    /// Opens the rename prompt for a branch.
    pub fn open_branch_rename_modal(&mut self, branch: String)
        ensures
            final(self)@ == old(self)@.renaming(branch@),
    {
        self.modal_input = Draft::Text(branch.clone());
        self.modal_rename_branch_source = Some(branch);
        self.focus = Focus::ModalRenameBranch;
    }

    fn branch_is_local(&self, name: &String) -> (local: bool)
        ensures
            local == self@.is_local_branch(name@),
    {
        match &self.repo {
            Some(repo) => repo.has_local_branch(name),
            None => false,
        }
    }

    /// Renames the selected branch.
    pub fn on_rename_branch(&mut self)
        ensures
            final(self)@ == old(self)@.after_rename_branch(),
    {
        if self.repo.is_none() || self.is_in_settings_or_viewer() {
            return ;
        }
        match self.focus {
            Focus::Branches => {
                let branch = match &self.panes.selected_branch {
                    Some(branch) => branch.clone(),
                    None => {
                        return ;
                    },
                };
                if self.branch_is_local(&branch) {
                    self.open_branch_rename_modal(branch);
                } else {
                    self.show_error(ErrorText::RenameBranchLocalOnly);
                }
            },
            Focus::Viewport => {
                if self.viewport != Viewport::Graph || self.graph_selected == 0
                    || self.panes.cursor.alias.is_none() {
                    return ;
                }
                if self.panes.cursor.branch_choices.len() == 0 {
                    return ;
                }
                let count = self.panes.cursor.local_branch_choices.len();
                if count == 0 {
                    self.show_error(ErrorText::RenameBranchLocalOnly);
                } else if count == 1 {
                    let branch = self.panes.cursor.local_branch_choices[0].clone();
                    self.open_branch_rename_modal(branch);
                } else {
                    self.modal_branch_action = BranchModalAction::Rename;
                    self.modal_solo_selected = 0;
                    self.focus = Focus::ModalSolo;
                }
            },
            _ => {},
        }
    }

    /// Deletes a branch, locally or on its remote.
    pub fn delete_branch_from_ui(&mut self, branch: &String)
        ensures
            final(self)@ == old(self)@.deleting(branch@),
    {
        if self.repo.is_none() {
            return ;
        }
        if self.branch_is_local(branch) {
            self.emit(Effect::Run(GitCommand::DeleteBranch { branch: branch.clone() }));
            return ;
        }
        let (remote_name, remote_branch) = match split_once(branch, '/') {
            Some(parts) => parts,
            None => ("origin".to_owned(), branch.clone()),
        };
        if remote_name.as_str().is_empty() || remote_branch.as_str().is_empty() {
            self.show_error(ErrorText::DeleteBranchInvalidRemote);
            return ;
        }
        let repo_path = self.request_path();
        self.modal_delete_branch_selected = 0;
        self.start_network_request(
            NetworkRequest::DeleteRemoteBranch { repo_path, remote_name, branch: remote_branch },
        );
    }

    /// Deletes the selected branch.
    pub fn on_delete_branch(&mut self)
        ensures
            final(self)@ == old(self)@.after_delete_branch(),
    {
        if self.is_in_settings_or_viewer() {
            return ;
        }
        let current = match &self.repo {
            Some(repo) => match &repo.current_branch {
                Some(branch) => Some(branch.clone()),
                None => None,
            },
            None => {
                return ;
            },
        };
        match self.focus {
            Focus::Branches => {
                let branch = match self.panes.branch_at_selection() {
                    Some((_, branch, _)) => branch,
                    None => {
                        return ;
                    },
                };
                let is_current = match &current {
                    Some(current) => *current == branch,
                    None => false,
                };
                if is_current {
                    self.show_error(ErrorText::DeleteBranchCurrent);
                } else {
                    self.delete_branch_from_ui(&branch);
                }
            },
            Focus::Viewport => {
                if self.graph_selected == 0 || self.panes.cursor.alias.is_none() {
                    return ;
                }
                let choices = self.panes.graph_deletable_branch_choices(&current);
                assert(texts(choices@).len() == choices@.len());
                if choices.len() == 1 {
                    assert(texts(choices@)[0] == choices@[0]@);
                    self.delete_branch_from_ui(&choices[0]);
                } else if choices.len() > 1 {
                    self.focus = Focus::ModalDeleteBranch;
                }
            },
            _ => {},
        }
    }
}

} // verus!
