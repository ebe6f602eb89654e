//! Opening the search modals.
use crate::app::AppView;
use crate::laws::moves_to;
use crate::message::Draft;
use crate::screen::{Focus, Viewport};
use vstd::prelude::*;

verus! {

/// The search over commits opens from the focused graph, and from nowhere else.
pub proof fn law_commit_search_is_from_the_graph(state: AppView)
    ensures
        state.viewport == Viewport::Graph && state.focus == Focus::Viewport ==> moves_to(
            state,
            state.after_find(),
            Focus::ModalGrep,
        ),
        state.viewport != Viewport::Graph || state.focus != Focus::Viewport ==> state.after_find()
            == state,
{
}

/// The focus is on none of the modals.
pub open spec fn on_no_modal(focus: Focus) -> bool {
    ||| focus == Focus::Viewport || focus == Focus::Inspector || focus == Focus::Search
    ||| focus == Focus::StatusTop || focus == Focus::StatusBottom
    ||| focus == Focus::Branches || focus == Focus::Tags || focus == Focus::Stashes
    ||| focus == Focus::Reflogs || focus == Focus::Worktrees || focus == Focus::Submodules
}

/// The file search opens over every pane of the graph and the viewer of an open
/// repository, empty and at its start, and remembers the pane; it opens nowhere else.
pub proof fn law_file_search_opens_empty_over_any_pane(state: AppView)
    ensures
        state.repo is Some && (state.viewport == Viewport::Graph || state.viewport
            == Viewport::Viewer) && on_no_modal(state.focus) ==> state.after_find_file() == (
        AppView {
            focus: Focus::ModalFileSearch,
            modal_file_search_return_focus: state.focus,
            modal_input: Draft::Empty,
            modal_file_search_results: Seq::empty(),
            modal_file_search_selected: 0,
            modal_file_search_scroll: 0,
            ..state
        }),
        state.repo is None || state.viewport == Viewport::Splash || state.viewport
            == Viewport::Settings || !on_no_modal(state.focus) ==> state.after_find_file()
            == state,
{
}

} // verus!
