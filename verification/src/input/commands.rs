//! What happens when a git command is done.
use crate::app::{App, AppView};
use crate::effect::{Effect, GitCommand, StagedFrom};
use crate::screen::Focus;
use vstd::prelude::*;

verus! {

impl AppView {
    /// A command went through. All commands change the repository, so it is read
    /// anew; some move the focus as well, and a deleted branch is no longer hidden.
    pub open spec fn command_succeeded(self, command: GitCommand<Seq<char>>) -> AppView {
        match command {
            GitCommand::CheckoutHead { .. } => self.focusing(Focus::Viewport).queue(Effect::Reload),
            GitCommand::Reset { .. } => self.focusing(Focus::Viewport).queue(Effect::Reload).queue(
                Effect::Focus(Focus::Viewport),
            ),
            GitCommand::StageSubmodule { from: StagedFrom::SubmodulePane, .. } => self.focusing(
                Focus::Submodules,
            ).queue(Effect::Reload),
            GitCommand::UnstageSubmodule { from: StagedFrom::SubmodulePane, .. } => self.focusing(
                Focus::Submodules,
            ).queue(Effect::Reload),
            GitCommand::DeleteBranch { branch } => {
                AppView {
                    modal_delete_branch_selected: 0,
                    focus: Focus::Viewport,
                    ..self.unhiding(branch)
                }.queue(Effect::Reload)
            },
            _ => self.queue(Effect::Reload),
        }
    }

    /// A command is done. If it failed, that is shown and nothing else changes.
    pub open spec fn command_ended(
        self,
        command: GitCommand<Seq<char>>,
        result: Result<(), String>,
    ) -> AppView {
        match result {
            Ok(_) => self.command_succeeded(command),
            Err(cause) => self.report_failure(command.action(), cause@),
        }
    }
}

impl App {
    /// Takes note of how a command went.
    pub fn command_finished(&mut self, command: GitCommand, result: Result<(), String>)
        ensures
            final(self)@ == old(self)@.command_ended(command@, result),
    {
        if let Err(cause) = result {
            let action = command.failed_action();
            assert(action == command@.action());
            self.show_failure(action, cause);
            return ;
        }
        match command {
            GitCommand::CheckoutHead { .. } => {
                self.focus = Focus::Viewport;
                self.reload();
            },
            GitCommand::Reset { .. } => {
                self.focus = Focus::Viewport;
                self.reload();
                self.emit(Effect::Focus(Focus::Viewport));
            },
            GitCommand::StageSubmodule { from: StagedFrom::SubmodulePane, .. } => {
                self.focus = Focus::Submodules;
                self.reload();
            },
            GitCommand::UnstageSubmodule { from: StagedFrom::SubmodulePane, .. } => {
                self.focus = Focus::Submodules;
                self.reload();
            },
            GitCommand::DeleteBranch { branch } => {
                self.unhide(&branch);
                self.modal_delete_branch_selected = 0;
                self.focus = Focus::Viewport;
                self.reload();
            },
            _ => {
                self.reload();
            },
        }
    }
}

} // verus!
