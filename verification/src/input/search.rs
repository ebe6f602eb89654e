//! Opening the search modals.
use crate::app::{App, AppView};
use crate::message::Draft;
use crate::names::texts;
use crate::screen::{Focus, Viewport};
use vstd::prelude::*;

verus! {

impl AppView {
    /// The search over commits opens over the graph only.
    pub open spec fn after_find(self) -> AppView {
        if self.on_graph() {
            self.focusing(Focus::ModalGrep)
        } else {
            self
        }
    }

    /// The file search opens empty over any pane of any view that shows a
    /// repository, and remembers which pane that was.
    pub open spec fn after_find_file(self) -> AppView {
        if self.repo is Some && !(self.viewport is Splash) && !(self.viewport is Settings)
            && self.focus.on_pane() {
            AppView {
                modal_file_search_return_focus: self.focus,
                modal_input: Draft::Empty,
                modal_file_search_results: Seq::empty(),
                modal_file_search_selected: 0,
                modal_file_search_scroll: 0,
                focus: Focus::ModalFileSearch,
                ..self
            }
        } else {
            self
        }
    }
}

impl App {
    /// Opens the search over commits.
    pub fn on_find(&mut self)
        ensures
            final(self)@ == old(self)@.after_find(),
    {
        if self.viewport == Viewport::Graph && self.focus == Focus::Viewport {
            self.focus = Focus::ModalGrep;
        }
    }

    /// Opens the search for files.
    pub fn on_find_file(&mut self)
        ensures
            final(self)@ == old(self)@.after_find_file(),
    {
        if self.repo.is_none() || matches!(self.viewport, Viewport::Splash | Viewport::Settings) {
            return ;
        }
        if !matches!(
            self.focus,
            Focus::Viewport
                | Focus::Inspector
                | Focus::StatusTop
                | Focus::StatusBottom
                | Focus::Search
                | Focus::Branches
                | Focus::Tags
                | Focus::Stashes
                | Focus::Reflogs
                | Focus::Worktrees
                | Focus::Submodules
        ) {
            return ;
        }
        self.modal_file_search_return_focus = self.focus;
        self.modal_input = Draft::Empty;
        self.modal_file_search_results = Vec::new();
        assert(texts(self.modal_file_search_results@) =~= Seq::empty());
        self.modal_file_search_selected = 0;
        self.modal_file_search_scroll = 0;
        self.focus = Focus::ModalFileSearch;
    }
}

} // verus!
