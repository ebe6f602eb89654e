//! What the panes show and what is selected in them.
use crate::names::{copy_names, texts};
use git2::Oid;
use std::collections::HashMap;
use vstd::prelude::*;

verus! {

broadcast use vstd::std_specs::hash::group_hash_axioms;

/// A commit as far as the message prompts need it.
#[derive(Debug, PartialEq)]
pub struct CommitInfo {
    /// The first line of the message, if it can be read.
    pub summary: Option<String>,
    pub parent_count: usize,
}

/// A row of the graph.
#[derive(Debug, PartialEq)]
pub struct GraphRow {
    pub oid: Oid,
    pub is_stash: bool,
    /// The names of the tags on the row.
    pub tags: Vec<String>,
}

/// What there is at the selected row of the graph. Row number zero stands for the
/// uncommitted changes.
#[derive(Debug, PartialEq)]
pub struct GraphCursor {
    /// The row, if it has been laid out.
    pub row: Option<GraphRow>,
    /// The number under which the application knows the row's commit.
    pub alias: Option<u32>,
    pub oid: Option<Oid>,
    /// The branches on the commit, local and remote.
    pub branch_choices: Vec<String>,
    /// The local ones among them.
    pub local_branch_choices: Vec<String>,
    /// The commit, or why it cannot be read.
    pub commit: Result<CommitInfo, String>,
}

/// A row of one of the side panes.
#[derive(Debug, PartialEq)]
pub enum GraphPaneRow {
    Branch { alias: u32, name: String, graph_index: Option<usize> },
    Tag { name: String },
    Other,
}

/// The stretch of a side pane that has been laid out.
#[derive(Debug, PartialEq)]
pub struct PaneWindow {
    pub start: usize,
    pub end: usize,
    pub rows: Vec<GraphPaneRow>,
}

impl PaneWindow {
    /// The row at a position of the pane, if the window covers it.
    pub open spec fn at(self, position: usize) -> Option<GraphPaneRow> {
        if self.start <= position < self.end && position - self.start < self.rows@.len() {
            Some(self.rows@[position - self.start])
        } else {
            None
        }
    }

    fn row(&self, position: usize) -> (row: Option<&GraphPaneRow>)
        ensures
            row is Some <==> self.at(position) is Some,
            row matches Some(row) ==> self.at(position) == Some(*row),
    {
        if self.start <= position && position < self.end {
            let offset = position - self.start;
            if offset < self.rows.len() {
                return Some(&self.rows[offset]);
            }
        }
        None
    }
}

/// A file selected in one of the status panes.
#[derive(Debug, PartialEq)]
pub struct StatusSelection {
    /// Its path in the work tree, with `/` between the parts as git writes it.
    pub name: Option<String>,
    pub is_conflict: bool,
}

/// The contents and selections of all panes.
#[derive(Debug)]
pub struct Panes {
    pub cursor: GraphCursor,
    pub branches_window: Option<PaneWindow>,
    pub branches_sorted: Vec<(u32, String)>,
    pub branches_selected: usize,
    pub tags_window: Option<PaneWindow>,
    pub tags_sorted: Vec<(u32, String)>,
    pub tags_selected: usize,
    /// The tags on each commit.
    pub tags_local: HashMap<u32, Vec<String>>,
    /// The commits in the order of the graph.
    pub sorted_aliases: Vec<u32>,
    /// The branch selected in the branch pane.
    pub selected_branch: Option<String>,
    /// The stash selected in the stash pane.
    pub selected_stash: Option<Oid>,
    /// The submodule selected in the submodule pane.
    pub selected_submodule: Option<String>,
    /// The file selected in whichever status pane has the focus.
    pub selected_file: Option<String>,
    pub staged_file: StatusSelection,
    pub unstaged_file: StatusSelection,
    /// There are staged changes.
    pub is_staged: bool,
    /// There are unstaged changes.
    pub is_unstaged: bool,
    /// The ids that the reflog entries moved to.
    pub reflog_targets: Vec<Oid>,
    pub reflogs_selected: usize,
}

/// The position of the first occurrence of an item.
pub open spec fn position_of(items: Seq<u32>, item: u32) -> Option<int>
    decreases items.len(),
{
    if items.len() == 0 {
        None
    } else if items[0] == item {
        Some(0)
    } else {
        match position_of(items.drop_first(), item) {
            Some(at) => Some(at + 1),
            None => None,
        }
    }
}

/// Where an item first occurs.
pub fn find_position(items: &Vec<u32>, item: u32) -> (position: Option<usize>)
    ensures
        position is Some <==> position_of(items@, item) is Some,
        position matches Some(at) ==> at < items@.len() && position_of(items@, item) == Some(
            at as int,
        ),
{
    let mut i: usize = 0;
    assert(items@.skip(0) =~= items@);
    while i < items.len()
        invariant
            i <= items.len(),
            position_of(items@, item) == match position_of(items@.skip(i as int), item) {
                Some(at) => Some(at + i),
                None => None,
            },
        decreases items.len() - i,
    {
        assert(items@.skip(i as int)[0] == items@[i as int]);
        assert(items@.skip(i as int).drop_first() =~= items@.skip(i + 1));
        if items[i] == item {
            return Some(i);
        }
        i += 1;
    }
    None
}

impl Panes {
    /// The branch the selection of the branch pane is on: its commit, its name, and
    /// its row in the graph where that is known. What is laid out wins over the
    /// plain list.
    pub open spec fn branch_row(self) -> Option<(u32, Seq<char>, Option<usize>)> {
        let laid_out = match self.branches_window {
            Some(window) => window.at(self.branches_selected),
            None => None,
        };
        match laid_out {
            Some(GraphPaneRow::Branch { alias, name, graph_index }) => Some(
                (alias, name@, graph_index),
            ),
            _ => if self.branches_selected < self.branches_sorted@.len() {
                let entry = self.branches_sorted@[self.branches_selected as int];
                Some((entry.0, entry.1@, None))
            } else {
                None
            },
        }
    }

    /// The branch the selection of the branch pane is on.
    pub fn branch_at_selection(&self) -> (branch: Option<(u32, String, Option<usize>)>)
        ensures
            branch is Some <==> self.branch_row() is Some,
            branch matches Some((alias, name, index)) ==> self.branch_row() == Some(
                (alias, name@, index),
            ),
    {
        if let Some(window) = &self.branches_window {
            if let Some(GraphPaneRow::Branch { alias, name, graph_index }) = window.row(
                self.branches_selected,
            ) {
                return Some((*alias, name.clone(), *graph_index));
            }
        }
        if self.branches_selected < self.branches_sorted.len() {
            let entry = &self.branches_sorted[self.branches_selected];
            return Some((entry.0, entry.1.clone(), None));
        }
        None
    }

    /// The tag the selection of the tag pane is on.
    pub open spec fn tag_row(self) -> Option<Seq<char>> {
        let laid_out = match self.tags_window {
            Some(window) => window.at(self.tags_selected),
            None => None,
        };
        match laid_out {
            Some(GraphPaneRow::Tag { name }) => Some(name@),
            _ => if self.tags_selected < self.tags_sorted@.len() {
                Some(self.tags_sorted@[self.tags_selected as int].1@)
            } else {
                None
            },
        }
    }

    /// The tag the selection of the tag pane is on.
    pub fn tag_at_selection(&self) -> (tag: Option<String>)
        ensures
            tag is Some <==> self.tag_row() is Some,
            tag matches Some(name) ==> self.tag_row() == Some(name@),
    {
        if let Some(window) = &self.tags_window {
            if let Some(GraphPaneRow::Tag { name }) = window.row(self.tags_selected) {
                return Some(name.clone());
            }
        }
        if self.tags_selected < self.tags_sorted.len() {
            return Some(self.tags_sorted[self.tags_selected].1.clone());
        }
        None
    }

    /// The tags on the selected commit: those of its row, or those recorded for it
    /// where the row is not laid out.
    pub open spec fn cursor_tags(self) -> Seq<Seq<char>> {
        match self.cursor.row {
            Some(row) => texts(row.tags@),
            None => match self.cursor.alias {
                Some(alias) => if self.tags_local@.contains_key(alias) {
                    texts(self.tags_local@[alias]@)
                } else {
                    Seq::empty()
                },
                None => Seq::empty(),
            },
        }
    }

    /// The tags on the selected commit.
    pub fn tags_at_cursor(&self) -> (tags: Vec<String>)
        ensures
            texts(tags@) == self.cursor_tags(),
    {
        if let Some(row) = &self.cursor.row {
            return copy_names(&row.tags);
        }
        if let Some(alias) = self.cursor.alias {
            if let Some(tags) = self.tags_local.get(&alias) {
                return copy_names(tags);
            }
        }
        let none: Vec<String> = Vec::new();
        assert(texts(none@) =~= Seq::empty());
        none
    }

    /// The branches on the selected commit that may be deleted: all but the
    /// checked-out one.
    pub open spec fn deletable(self, current: Option<Seq<char>>) -> Seq<Seq<char>> {
        texts(self.cursor.branch_choices@).filter(|name: Seq<char>| current != Some(name))
    }

    /// The branches on the selected commit without the checked-out one.
    pub fn graph_deletable_branch_choices(&self, current: &Option<String>) -> (names: Vec<String>)
        ensures
            texts(names@) == self.deletable(crate::repository::text_of(*current)),
    {
        let ghost wanted = crate::repository::text_of(*current);
        let ghost pass = |name: Seq<char>| wanted != Some(name);
        let choices = &self.cursor.branch_choices;
        let ghost all = texts(choices@);
        let mut names: Vec<String> = Vec::new();
        assert(texts(names@) =~= all.take(0).filter(pass));
        for i in 0..choices.len()
            invariant
                all == texts(choices@),
                wanted == crate::repository::text_of(*current),
                pass == (|name: Seq<char>| wanted != Some(name)),
                texts(names@) == all.take(i as int).filter(pass),
        {
            let ghost before = texts(names@);
            let is_current = match current {
                Some(current) => choices[i] == *current,
                None => false,
            };
            if !is_current {
                names.push(choices[i].clone());
                assert(texts(names@) =~= before.push(choices@[i as int]@));
            }
            proof {
                assert(all.take(i + 1).drop_last() =~= all.take(i as int));
                assert(all.take(i + 1).last() == all[i as int]);
                reveal(Seq::filter);
            }
        }
        assert(all.take(all.len() as int) =~= all);
        names
    }
}

} // verus!
