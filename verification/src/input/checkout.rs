//! Checking out branches and commits.
use crate::app::{App, AppView};
use crate::effect::{CheckoutOrigin, Effect, GitCommand};
use crate::message::FailedAction;
use crate::names::{texts, NameSet};
use crate::panes::{find_position, position_of};
use crate::screen::{Focus, Viewport};
use vstd::prelude::*;

verus! {

impl AppView {
    /// A commit is selected in the graph, as opposed to the uncommitted changes,
    /// which stand in row zero and have no commit of their own.
    pub open spec fn commit_selected(self) -> bool {
        self.viewport is Graph && self.graph_selected != 0 && self.panes.cursor.alias is Some
            && self.panes.cursor.oid is Some
    }

    /// The branch pane checks out the branch it is on. The graph checks out the
    /// branch of the selected commit if there is exactly one, the commit itself if
    /// there is none, and lets the user choose otherwise.
    pub open spec fn after_checkout(self) -> AppView {
        let cursor = self.panes.cursor;
        let choices = texts(cursor.branch_choices@);
        if self.repo is None {
            self
        } else if self.focus is Branches {
            match self.panes.branch_row() {
                Some((alias, branch, graph_index)) => self.queue(
                    Effect::CheckoutBranch {
                        alias,
                        branch,
                        origin: CheckoutOrigin::Pane { graph_index },
                    },
                ),
                None => self,
            }
        } else if self.focus is Viewport && self.commit_selected() {
            if choices.len() == 0 {
                self.queue(Effect::Run(GitCommand::CheckoutHead { oid: cursor.oid->0 }))
            } else if choices.len() == 1 {
                self.queue(
                    Effect::CheckoutBranch {
                        alias: cursor.alias->0,
                        branch: choices[0],
                        origin: CheckoutOrigin::Graph,
                    },
                )
            } else {
                self.focusing(Focus::ModalCheckout)
            }
        } else {
            self
        }
    }

    /// The row of the graph to select after a checkout: the row of the branch as far
    /// as it is known or can be found, and the first row if not. A checkout from the
    /// graph leaves the selection alone.
    pub open spec fn row_after_checkout(self, alias: u32, origin: CheckoutOrigin) -> usize {
        match origin {
            CheckoutOrigin::Pane { graph_index: Some(row) } => row,
            CheckoutOrigin::Pane { graph_index: None } => match position_of(
                self.panes.sorted_aliases@,
                alias,
            ) {
                Some(row) => row as usize,
                None => 0,
            },
            CheckoutOrigin::Graph => self.graph_selected,
        }
    }

    /// A branch checkout is done, and `hidden` are the branches hidden since.
    pub open spec fn branch_checkout_ended(
        self,
        alias: u32,
        origin: CheckoutOrigin,
        hidden: Set<Seq<char>>,
        result: Result<(), String>,
    ) -> AppView {
        let updated = AppView { hidden_branch_names: hidden, ..self };
        match result {
            Ok(_) => {
                let moved = AppView {
                    graph_selected: self.row_after_checkout(alias, origin),
                    focus: Focus::Viewport,
                    ..updated
                };
                let saved = match self.path {
                    Some(path) => moved.queue(Effect::SaveBranchVisibility { path, hidden }),
                    None => moved,
                };
                saved.queue(Effect::Reload)
            },
            Err(cause) => updated.report_failure(FailedAction::Checkout, cause@),
        }
    }
}

impl App {
    /// Checks out what is selected.
    pub fn on_checkout(&mut self)
        ensures
            final(self)@ == old(self)@.after_checkout(),
    {
        if self.repo.is_none() {
            return ;
        }
        match self.focus {
            Focus::Branches => {
                match self.panes.branch_at_selection() {
                    Some((alias, branch, graph_index)) => {
                        self.emit(
                            Effect::CheckoutBranch {
                                alias,
                                branch,
                                origin: CheckoutOrigin::Pane { graph_index },
                            },
                        );
                    },
                    None => {},
                }
            },
            Focus::Viewport => {
                if self.viewport != Viewport::Graph || self.graph_selected == 0 {
                    return ;
                }
                let alias = match self.panes.cursor.alias {
                    Some(alias) => alias,
                    None => {
                        return ;
                    },
                };
                let oid = match self.panes.cursor.oid {
                    Some(oid) => oid,
                    None => {
                        return ;
                    },
                };
                let count = self.panes.cursor.branch_choices.len();
                if count == 0 {
                    self.emit(Effect::Run(GitCommand::CheckoutHead { oid }));
                } else if count == 1 {
                    let branch = self.panes.cursor.branch_choices[0].clone();
                    self.emit(
                        Effect::CheckoutBranch { alias, branch, origin: CheckoutOrigin::Graph },
                    );
                } else {
                    self.focus = Focus::ModalCheckout;
                }
            },
            _ => {},
        }
    }

    /// Takes note of how the checkout of a branch went. The host passes the hidden
    /// branches back as the checkout left them.
    pub fn branch_checkout_finished(
        &mut self,
        alias: u32,
        origin: CheckoutOrigin,
        hidden: NameSet,
        result: Result<(), String>,
    )
        ensures
            final(self)@ == old(self)@.branch_checkout_ended(alias, origin, hidden@, result),
    {
        self.hidden_branch_names = hidden;
        match result {
            Ok(_) => {
                if let CheckoutOrigin::Pane { graph_index } = origin {
                    self.graph_selected = match graph_index {
                        Some(row) => row,
                        None => match find_position(&self.panes.sorted_aliases, alias) {
                            Some(row) => row,
                            None => 0,
                        },
                    };
                }
                self.focus = Focus::Viewport;
                self.save_visibility();
                self.reload();
            },
            Err(cause) => {
                self.show_failure(FailedAction::Checkout, cause);
            },
        }
    }
}

} // verus!
