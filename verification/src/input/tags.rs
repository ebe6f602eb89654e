//! Tags.
use crate::app::{App, AppView};
use crate::effect::{Effect, GitCommand};
use crate::names::texts;
use crate::screen::Focus;
use vstd::prelude::*;

verus! {

impl AppView {
    /// The prompt for a new tag opens on the selected commit.
    pub open spec fn after_tag(self) -> AppView {
        if self.focus is Viewport && self.graph_selected != 0 && !self.in_settings_or_viewer() {
            self.focusing(Focus::ModalTag)
        } else {
            self
        }
    }

    /// The tag pane deletes the tag it is on. The graph deletes the tag of the
    /// selected commit if there is exactly one, and lets the user choose among
    /// several.
    pub open spec fn after_untag(self) -> AppView {
        let tags = self.panes.cursor_tags();
        if self.repo is None || self.in_settings_or_viewer() {
            self
        } else if self.focus is Tags {
            match self.panes.tag_row() {
                Some(tag) => self.queue(Effect::Run(GitCommand::DeleteTag { tag })),
                None => self,
            }
        } else if self.focus is Viewport && self.graph_selected != 0 && tags.len() == 1 {
            self.queue(Effect::Run(GitCommand::DeleteTag { tag: tags[0] }))
        } else if self.focus is Viewport && self.graph_selected != 0 && tags.len() > 1 {
            self.focusing(Focus::ModalDeleteTag)
        } else {
            self
        }
    }
}

impl App {
    /// Opens the prompt for a new tag on the selected commit.
    pub fn on_tag(&mut self)
        ensures
            final(self)@ == old(self)@.after_tag(),
    {
        if self.is_in_settings_or_viewer() {
            return ;
        }
        if self.focus == Focus::Viewport && self.graph_selected != 0 {
            self.focus = Focus::ModalTag;
        }
    }

    /// Deletes the selected tag.
    pub fn on_untag(&mut self)
        ensures
            final(self)@ == old(self)@.after_untag(),
    {
        if self.repo.is_none() || self.is_in_settings_or_viewer() {
            return ;
        }
        match self.focus {
            Focus::Tags => {
                match self.panes.tag_at_selection() {
                    Some(tag) => {
                        self.emit(Effect::Run(GitCommand::DeleteTag { tag }));
                    },
                    None => {},
                }
            },
            Focus::Viewport => {
                if self.graph_selected == 0 {
                    return ;
                }
                let tags = self.panes.tags_at_cursor();
                assert(texts(tags@).len() == tags@.len());
                if tags.len() == 1 {
                    assert(texts(tags@)[0] == tags@[0]@);
                    let tag = tags[0].clone();
                    self.emit(Effect::Run(GitCommand::DeleteTag { tag }));
                } else if tags.len() > 1 {
                    self.focus = Focus::ModalDeleteTag;
                }
            },
            _ => {},
        }
    }
}

} // verus!
