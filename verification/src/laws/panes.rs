//! What the panes say is selected.
use crate::names::texts;
use crate::panes::{position_of, GraphPaneRow, PaneWindow, Panes};
use crate::paths::same_place;
use crate::repository::{submodule_at, RepoSnapshot, SubmoduleEntry};
use vstd::prelude::*;

verus! {

/// The window covers a position of the pane, and `row` is laid out there.
pub open spec fn lays_out(window: Option<PaneWindow>, position: usize, row: GraphPaneRow) -> bool {
    window matches Some(window) && window.start <= position && position < window.end
        && window.start + window.rows@.len() > position && window.rows@[position - window.start]
        == row
}

/// A branch is laid out at the selection of the branch pane.
pub open spec fn lays_out_a_branch(panes: Panes) -> bool {
    exists|row: GraphPaneRow| #[trigger]
        lays_out(panes.branches_window, panes.branches_selected, row) && row is Branch
}

/// The selection of the branch pane is on the branch `name` of the commit `alias`, with
/// its row of the graph where that is known: as it is laid out, or as it stands in the
/// list where no branch is laid out.
pub open spec fn on_branch(
    panes: Panes,
    alias: u32,
    name: Seq<char>,
    graph_index: Option<usize>,
) -> bool {
    ||| exists|text: String| #[trigger]
        lays_out(
            panes.branches_window,
            panes.branches_selected,
            GraphPaneRow::Branch { alias, name: text, graph_index },
        ) && text@ == name
    ||| {
        &&& !lays_out_a_branch(panes)
        &&& panes.branches_selected < panes.branches_sorted@.len()
        &&& panes.branches_sorted@[panes.branches_selected as int].0 == alias
        &&& panes.branches_sorted@[panes.branches_selected as int].1@ == name
        &&& graph_index is None
    }
}

/// The selection of the branch pane is on no branch.
pub open spec fn on_no_branch(panes: Panes) -> bool {
    !lays_out_a_branch(panes) && panes.branches_selected >= panes.branches_sorted@.len()
}

/// The branch pane is on one branch or on none.
pub proof fn law_branch_pane_is_on_one_branch_or_none(
    panes: Panes,
    alias: u32,
    name: Seq<char>,
    graph_index: Option<usize>,
)
    ensures
        panes.branch_row() == Some((alias, name, graph_index)) <==> on_branch(
            panes,
            alias,
            name,
            graph_index,
        ),
        panes.branch_row() is None <==> on_no_branch(panes),
{
    if panes.branches_window is Some {
        let window = panes.branches_window->0;
        let at = panes.branches_selected;
        if window.start <= at < window.end && window.start + window.rows@.len() > at {
            let row = window.rows@[at - window.start];
            assert(lays_out(panes.branches_window, at, row));
        }
    }
}

/// A tag is laid out at the selection of the tag pane.
pub open spec fn lays_out_a_tag(panes: Panes) -> bool {
    exists|row: GraphPaneRow| #[trigger]
        lays_out(panes.tags_window, panes.tags_selected, row) && row is Tag
}

/// The selection of the tag pane is on the tag `name`.
pub open spec fn on_tag(panes: Panes, name: Seq<char>) -> bool {
    ||| exists|text: String| #[trigger]
        lays_out(panes.tags_window, panes.tags_selected, GraphPaneRow::Tag { name: text })
            && text@ == name
    ||| {
        &&& !lays_out_a_tag(panes)
        &&& panes.tags_selected < panes.tags_sorted@.len()
        &&& panes.tags_sorted@[panes.tags_selected as int].1@ == name
    }
}

/// The selection of the tag pane is on no tag.
pub open spec fn on_no_tag(panes: Panes) -> bool {
    !lays_out_a_tag(panes) && panes.tags_selected >= panes.tags_sorted@.len()
}

/// The tag pane is on one tag or on none.
pub proof fn law_tag_pane_is_on_one_tag_or_none(panes: Panes, name: Seq<char>)
    ensures
        panes.tag_row() == Some(name) <==> on_tag(panes, name),
        panes.tag_row() is None <==> on_no_tag(panes),
{
    if panes.tags_window is Some {
        let window = panes.tags_window->0;
        let at = panes.tags_selected;
        if window.start <= at < window.end && window.start + window.rows@.len() > at {
            let row = window.rows@[at - window.start];
            assert(lays_out(panes.tags_window, at, row));
        }
    }
}

/// The selected commit carries exactly the tags `tags`: those of its row if that is laid
/// out, and otherwise those recorded for it.
pub open spec fn carries_tags(panes: Panes, tags: Seq<String>) -> bool {
    ||| panes.cursor.row matches Some(row) && row.tags@ == tags
    ||| {
        &&& panes.cursor.row is None
        &&& panes.cursor.alias matches Some(alias) && panes.tags_local@.contains_key(alias)
            && panes.tags_local@[alias]@ == tags
    }
    ||| {
        &&& panes.cursor.row is None
        &&& panes.cursor.alias matches Some(alias) ==> !panes.tags_local@.contains_key(alias)
        &&& tags.len() == 0
    }
}

/// All tags of the selected commit are seen, in their order.
pub proof fn law_cursor_sees_all_tags(panes: Panes, tags: Seq<String>)
    requires
        carries_tags(panes, tags),
    ensures
        panes.cursor_tags().len() == tags.len(),
        forall|i: int| 0 <= i < tags.len() ==> panes.cursor_tags()[i] == (#[trigger] tags[i])@,
{
}

/// What passes the filter: nothing if no item does, the one item that does, and several
/// if several do.
pub(crate) proof fn lemma_filter_counts<A>(items: Seq<A>, pass: spec_fn(A) -> bool)
    ensures
        items.filter(pass).len() == 0 <==> forall|i: int|
            0 <= i < items.len() ==> !pass(#[trigger] items[i]),
        forall|i: int|
            #![trigger items[i]]
            0 <= i < items.len() && pass(items[i]) && (forall|j: int|
                0 <= j < items.len() && j != i ==> !pass(#[trigger] items[j])) ==> items.filter(
                pass,
            ) == seq![items[i]],
        forall|i: int, j: int|
            #![trigger items[i], items[j]]
            0 <= i < j < items.len() && pass(items[i]) && pass(items[j]) ==> items.filter(
                pass,
            ).len() >= 2,
    decreases items.len(),
{
    reveal(Seq::filter);
    if items.len() > 0 {
        let front = items.drop_last();
        let n = items.len() - 1;
        lemma_filter_counts(front, pass);
        assert(forall|i: int| 0 <= i < n ==> items[i] == front[i]);
        if pass(items[n]) {
            assert(items.filter(pass)[items.filter(pass).len() - 1] == items[n]);
        }
        assert forall|i: int|
            #![trigger items[i]]
            0 <= i < items.len() && pass(items[i]) && (forall|j: int|
                0 <= j < items.len() && j != i ==> !pass(
                    #[trigger] items[j],
                )) implies items.filter(pass) == seq![items[i]] by {
            if i == n {
                assert(forall|k: int| 0 <= k < front.len() ==> !pass(#[trigger] front[k])) by {
                    assert forall|k: int| 0 <= k < front.len() implies !pass(
                        #[trigger] front[k],
                    ) by {
                        assert(!pass(items[k]));
                    }
                }
                assert(items.filter(pass) =~= seq![items[i]]);
            } else {
                assert(!pass(items[n]));
                assert(pass(front[i]));
                assert forall|k: int| 0 <= k < front.len() && k != i implies !pass(
                    #[trigger] front[k],
                ) by {
                    assert(!pass(items[k]));
                }
            }
        }
        assert forall|i: int, j: int|
            #![trigger items[i], items[j]]
            0 <= i < j < items.len() && pass(items[i]) && pass(items[j]) implies items.filter(
            pass,
        ).len() >= 2 by {
            if j == n {
                assert(pass(front[i]));
                assert(front.filter(pass).len() > 0);
            } else {
                assert(pass(front[i]) && pass(front[j]));
            }
        }
        if forall|i: int| 0 <= i < items.len() ==> !pass(#[trigger] items[i]) {
            assert(!pass(items[n]));
            assert forall|i: int| 0 <= i < front.len() implies !pass(#[trigger] front[i]) by {
                assert(!pass(items[i]));
            }
        }
        if items.filter(pass).len() == 0 {
            assert forall|i: int| 0 <= i < items.len() implies !pass(#[trigger] items[i]) by {
                if i < n {
                    assert(!pass(front[i]));
                }
            }
        }
    }
}

/// Filtering keeps exactly the items that pass.
pub(crate) proof fn lemma_filter_members<A>(items: Seq<A>, pass: spec_fn(A) -> bool)
    ensures
        forall|x: A| #[trigger]
            items.filter(pass).contains(x) <==> items.contains(x) && pass(x),
{
    assert forall|x: A| #[trigger] items.filter(pass).contains(x) implies items.contains(x) && pass(
        x,
    ) by {
        let i = choose|i: int| 0 <= i < items.filter(pass).len() && items.filter(pass)[i] == x;
        items.lemma_filter_pred(pass, i);
        items.lemma_filter_contains_rev(pass, x);
    }
    assert forall|x: A| items.contains(x) && pass(x) implies #[trigger] items.filter(
        pass,
    ).contains(x) by {
        let i = choose|i: int| 0 <= i < items.len() && items[i] == x;
        items.lemma_filter_contains(pass, i);
    }
}

/// A branch of the selected commit may be deleted exactly if it is not checked out: none
/// may if all are, the one that is not if there is one, and several if several are not.
pub proof fn law_all_but_the_checked_out_branch_may_go(panes: Panes, current: Option<Seq<char>>)
    ensures
        panes.deletable(current).len() == 0 <==> forall|i: int|
            0 <= i < panes.cursor.branch_choices@.len() ==> Some(
                (#[trigger] panes.cursor.branch_choices@[i])@,
            ) == current,
        forall|i: int|
            0 <= i < panes.cursor.branch_choices@.len() && Some(
                (#[trigger] panes.cursor.branch_choices@[i])@,
            ) != current && (forall|j: int|
                0 <= j < panes.cursor.branch_choices@.len() && j != i ==> Some(
                    (#[trigger] panes.cursor.branch_choices@[j])@,
                ) == current) ==> panes.deletable(current) == seq![
                panes.cursor.branch_choices@[i]@,
            ],
        forall|i: int, j: int|
            0 <= i < j < panes.cursor.branch_choices@.len() && Some(
                (#[trigger] panes.cursor.branch_choices@[i])@,
            ) != current && Some((#[trigger] panes.cursor.branch_choices@[j])@) != current
                ==> panes.deletable(current).len() >= 2,
{
    let raw = panes.cursor.branch_choices@;
    let items = texts(raw);
    let pass = |name: Seq<char>| current != Some(name);
    lemma_filter_counts(items, pass);
    assert(items.len() == raw.len());
    assert(forall|i: int| 0 <= i < raw.len() ==> items[i] == (#[trigger] raw[i])@);
    assert(panes.deletable(current) == items.filter(pass));
    if panes.deletable(current).len() == 0 {
        assert forall|i: int| 0 <= i < raw.len() implies Some((#[trigger] raw[i])@) == current by {
            assert(!pass(items[i]));
        }
    }
    assert forall|i: int|
        0 <= i < raw.len() && Some((#[trigger] raw[i])@) != current && (forall|j: int|
            0 <= j < raw.len() && j != i ==> Some((#[trigger] raw[j])@)
                == current) implies panes.deletable(current) == seq![raw[i]@] by {
        assert(pass(items[i]));
        assert forall|j: int| 0 <= j < items.len() && j != i implies !pass(#[trigger] items[j]) by {
            assert(Some(raw[j]@) == current);
        }
    }
    assert forall|i: int, j: int|
        0 <= i < j < raw.len() && Some((#[trigger] raw[i])@) != current && Some(
            (#[trigger] raw[j])@,
        ) != current implies panes.deletable(current).len() >= 2 by {
        assert(pass(items[i]) && pass(items[j]));
    }
}

/// A position is found exactly if the item is there, and it is that of the first one.
pub proof fn law_first_position_is_found(items: Seq<u32>, item: u32)
    ensures
        position_of(items, item) is Some <==> items.contains(item),
        position_of(items, item) matches Some(at) ==> 0 <= at < items.len() && items[at] == item
            && forall|i: int| 0 <= i < at ==> items[i] != item,
    decreases items.len(),
{
    if items.len() > 0 {
        let rest = items.drop_first();
        law_first_position_is_found(rest, item);
        if rest.contains(item) {
            let i = choose|i: int| 0 <= i < rest.len() && rest[i] == item;
            assert(items[i + 1] == item);
        }
        if items[0] == item {
            assert(items.contains(item));
        }
        if items.contains(item) && items[0] != item {
            let i = choose|i: int| 0 <= i < items.len() && items[i] == item;
            assert(rest[i - 1] == item);
        }
        if items[0] != item && position_of(rest, item) is Some {
            let at = position_of(rest, item)->0;
            assert forall|i: int| 0 <= i < at + 1 implies items[i] != item by {
                if i > 0 {
                    assert(rest[i - 1] != item);
                }
            }
        }
    }
}

/// Entry number `i` is the first submodule at `path`.
pub open spec fn is_first_at(submodules: Seq<SubmoduleEntry>, i: int, path: Seq<char>) -> bool {
    &&& 0 <= i < submodules.len()
    &&& same_place(submodules[i].path@, path)
    &&& forall|j: int| 0 <= j < i ==> !same_place((#[trigger] submodules[j]).path@, path)
}

proof fn lemma_first_submodule(submodules: Seq<SubmoduleEntry>, path: Seq<char>, i: int)
    ensures
        is_first_at(submodules, i, path) ==> submodule_at(submodules, path) == (
        match submodules[i].name {
            Some(name) => Some(name@),
            None => Some(path),
        }),
        (forall|j: int| 0 <= j < submodules.len() ==> !same_place(
            (#[trigger] submodules[j]).path@,
            path,
        )) ==> submodule_at(submodules, path) is None,
    decreases submodules.len(),
{
    if submodules.len() > 0 {
        let rest = submodules.drop_first();
        lemma_first_submodule(rest, path, i - 1);
        if is_first_at(submodules, i, path) && i > 0 {
            assert(!same_place(submodules[0].path@, path));
            assert forall|j: int| 0 <= j < i - 1 implies !same_place(
                (#[trigger] rest[j]).path@,
                path,
            ) by {
                assert(!same_place(submodules[j + 1].path@, path));
            }
            assert(is_first_at(rest, i - 1, path));
        }
        if forall|j: int| 0 <= j < submodules.len() ==> !same_place(
            (#[trigger] submodules[j]).path@,
            path,
        ) {
            assert(!same_place(submodules[0].path@, path));
            assert forall|j: int| 0 <= j < rest.len() implies !same_place(
                (#[trigger] rest[j]).path@,
                path,
            ) by {
                assert(!same_place(submodules[j + 1].path@, path));
            }
        }
    }
}

/// A path stands for the first submodule that lives there, by its name or, where that
/// cannot be read, by the path; and for none if none lives there or they cannot be
/// listed.
pub proof fn law_submodule_is_the_first_at_the_path(repo: RepoSnapshot, path: Seq<char>, i: int)
    ensures
        repo.submodules is None ==> repo.submodule(path) is None,
        repo.submodules matches Some(list) && is_first_at(list@, i, path) && list@[i].name is Some
            ==> repo.submodule(path) == Some(repo.submodules->0@[i].name->0@),
        repo.submodules matches Some(list) && is_first_at(list@, i, path) && list@[i].name is None
            ==> repo.submodule(path) == Some(path),
        repo.submodules matches Some(list) && (forall|j: int|
            0 <= j < list@.len() ==> !same_place((#[trigger] list@[j]).path@, path))
            ==> repo.submodule(path) is None,
{
    if let Some(list) = repo.submodules {
        lemma_first_submodule(list@, path, i);
    }
}

} // verus!
