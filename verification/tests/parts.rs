use git2::Oid;
use guitar::names::{copy_names, holds, NameSet};
use guitar::operation::OperationKind;
use guitar::panes::{
    find_position, CommitInfo, GraphCursor, GraphPaneRow, GraphRow, PaneWindow, Panes,
    StatusSelection,
};
use guitar::paths::same_path;
use guitar::repository::{RepoSnapshot, RepositoryState, SubmoduleEntry};
use guitar::request::AuthProtocol;
use guitar::text::{chars_of, split_once, trim};
use std::collections::HashMap;

fn s(text: &str) -> String {
    text.to_string()
}

fn names(list: &[&str]) -> Vec<String> {
    list.iter().map(|name| name.to_string()).collect()
}

fn oid(n: u8) -> Oid {
    Oid::from_bytes(&[n; 20]).unwrap()
}

#[test]
fn trim_takes_white_space_off_both_ends() {
    for text in [
        "",
        " ",
        "\t\r\n \u{b}\u{c}",
        "name",
        "  name",
        "name  ",
        "  first last ",
        "\u{a0}\u{2003}na\u{3000}me\u{85}\u{2028}",
        "\u{200b}kept\u{200b}",
        "\u{1680}\u{202f}x\u{205f}\u{2029}",
        "é ü",
    ] {
        assert_eq!(trim(&s(text)), text.trim());
    }
    assert_eq!(trim(&s(" a b ")), "a b");
}

#[test]
fn split_once_splits_at_the_first_mark() {
    assert_eq!(split_once(&s("origin/feature/x"), '/'), Some((s("origin"), s("feature/x"))));
    assert_eq!(split_once(&s("/x"), '/'), Some((s(""), s("x"))));
    assert_eq!(split_once(&s("x/"), '/'), Some((s("x"), s(""))));
    assert_eq!(split_once(&s("/"), '/'), Some((s(""), s(""))));
    assert_eq!(split_once(&s("äö/ü"), '/'), Some((s("äö"), s("ü"))));
    assert_eq!(split_once(&s("main"), '/'), None);
    assert_eq!(split_once(&s(""), '/'), None);
}

#[test]
fn chars_of_keeps_order() {
    assert_eq!(chars_of("aé日"), vec!['a', 'é', '日']);
}

#[test]
fn same_path_compares_as_the_standard_library_does() {
    let paths = [
        "", ".", "./", "/", "//", "/.", "a", "./a", "a/", "a/.", "a//", "/a", "//a", "a/b",
        "a//b", "a/./b", "a/../b", "..", "../", "./.", "a/b/", "/a/b/.", ".a", "a.", "...", "A",
    ];
    for a in paths {
        for b in paths {
            let expected = std::path::Path::new(a) == std::path::Path::new(b);
            assert_eq!(same_path(&s(a), &s(b)), expected, "{a:?} and {b:?}");
        }
    }
    assert!(same_path(&s("/repo/.git/"), &s("/repo/./.git")));
    assert!(!same_path(&s("/repo/.git"), &s("repo/.git")));
}

#[test]
fn name_set_keeps_each_name_once() {
    let set = NameSet::from_names(names(&["b", "a", "b", "c", "a"]));
    assert_eq!(set.to_names(), names(&["b", "a", "c"]));
    assert!(set.contains(&s("a")));
    assert!(!set.contains(&s("d")));
}

#[test]
fn name_set_removes_one_name_only() {
    let mut set = NameSet::from_names(names(&["b", "a", "c"]));
    let copy = set.clone();
    set.remove(&s("a"));
    assert_eq!(set.to_names(), names(&["b", "c"]));
    set.remove(&s("x"));
    assert_eq!(set.to_names(), names(&["b", "c"]));
    assert_eq!(copy.to_names(), names(&["b", "a", "c"]));
    assert_eq!(NameSet::from_names(Vec::new()).to_names(), Vec::<String>::new());
}

#[test]
fn names_are_copied_and_found() {
    let list = names(&["x", "y"]);
    assert_eq!(copy_names(&list), list);
    assert!(holds(&list, &s("y")));
    assert!(!holds(&list, &s("z")));
}

#[test]
fn position_is_that_of_the_first_occurrence() {
    assert_eq!(find_position(&vec![5, 7, 7, 9], 7), Some(1));
    assert_eq!(find_position(&vec![5, 7], 9), None);
    assert_eq!(find_position(&Vec::new(), 9), None);
}

#[test]
fn states_of_a_repository_tell_the_operation() {
    let expected = [
        (RepositoryState::Clean, None),
        (RepositoryState::Merge, Some(OperationKind::Merge)),
        (RepositoryState::Revert, Some(OperationKind::Revert)),
        (RepositoryState::RevertSequence, Some(OperationKind::Revert)),
        (RepositoryState::CherryPick, Some(OperationKind::Cherrypick)),
        (RepositoryState::CherryPickSequence, Some(OperationKind::Cherrypick)),
        (RepositoryState::Bisect, None),
        (RepositoryState::Rebase, Some(OperationKind::Rebase)),
        (RepositoryState::RebaseInteractive, Some(OperationKind::Rebase)),
        (RepositoryState::RebaseMerge, Some(OperationKind::Rebase)),
        (RepositoryState::ApplyMailbox, None),
        (RepositoryState::ApplyMailboxOrRebase, Some(OperationKind::Rebase)),
    ];
    for (state, operation) in expected {
        assert_eq!(state.active_operation(), operation);
    }
}

#[test]
fn only_the_web_protocols_ask_for_a_password() {
    assert!(AuthProtocol::Http.is_http());
    assert!(AuthProtocol::Https.is_http());
    assert!(!AuthProtocol::Ssh.is_http());
}

fn snapshot() -> RepoSnapshot {
    RepoSnapshot {
        state: RepositoryState::Clean,
        rebase_in_progress: false,
        cherrypick_in_progress: false,
        revert_in_progress: false,
        merge_in_progress: false,
        current_branch: None,
        default_remote: None,
        local_branches: names(&["main", "topic"]),
        submodules: None,
    }
}

#[test]
fn local_branches_are_those_listed() {
    let repo = snapshot();
    assert!(repo.has_local_branch(&s("topic")));
    assert!(!repo.has_local_branch(&s("origin/topic")));
}

#[test]
fn repository_is_busy_with_any_operation() {
    assert!(!snapshot().is_busy());
    assert!(RepoSnapshot { rebase_in_progress: true, ..snapshot() }.is_busy());
    assert!(RepoSnapshot { cherrypick_in_progress: true, ..snapshot() }.is_busy());
    assert!(RepoSnapshot { revert_in_progress: true, ..snapshot() }.is_busy());
    assert!(RepoSnapshot { merge_in_progress: true, ..snapshot() }.is_busy());
}

#[test]
fn submodule_is_found_by_its_path() {
    let entry = |path: &str, name: Option<&str>| SubmoduleEntry {
        path: s(path),
        name: name.map(|name| name.to_string()),
    };
    let repo = RepoSnapshot {
        submodules: Some(vec![
            entry("vendor/a", Some("first")),
            entry("vendor/b", None),
            entry("vendor/a/", Some("second")),
        ]),
        ..snapshot()
    };
    assert_eq!(repo.submodule_name_for_status_path(&s("vendor/a")), Some(s("first")));
    assert_eq!(repo.submodule_name_for_status_path(&s("vendor//a/")), Some(s("first")));
    // One without a readable name goes by the path that was asked for.
    assert_eq!(repo.submodule_name_for_status_path(&s("vendor/b/")), Some(s("vendor/b/")));
    assert_eq!(repo.submodule_name_for_status_path(&s("vendor")), None);
    assert_eq!(snapshot().submodule_name_for_status_path(&s("vendor/a")), None);
}

fn panes() -> Panes {
    Panes {
        cursor: GraphCursor {
            row: None,
            alias: None,
            oid: None,
            branch_choices: Vec::new(),
            local_branch_choices: Vec::new(),
            commit: Ok(CommitInfo { summary: None, parent_count: 1 }),
        },
        branches_window: None,
        branches_sorted: Vec::new(),
        branches_selected: 0,
        tags_window: None,
        tags_sorted: Vec::new(),
        tags_selected: 0,
        tags_local: HashMap::new(),
        sorted_aliases: Vec::new(),
        selected_branch: None,
        selected_stash: None,
        selected_submodule: None,
        selected_file: None,
        staged_file: StatusSelection { name: None, is_conflict: false },
        unstaged_file: StatusSelection { name: None, is_conflict: false },
        is_staged: false,
        is_unstaged: false,
        reflog_targets: Vec::new(),
        reflogs_selected: 0,
    }
}

#[test]
fn laid_out_branch_wins_over_the_list() {
    let branch = |alias, name: &str, graph_index| GraphPaneRow::Branch {
        alias,
        name: s(name),
        graph_index,
    };
    let mut panes = panes();
    assert_eq!(panes.branch_at_selection(), None);
    panes.branches_sorted = (0..8).map(|i| (i, format!("listed{i}"))).collect();
    panes.branches_window = Some(PaneWindow {
        start: 2,
        end: 5,
        rows: vec![branch(20, "two", Some(9)), GraphPaneRow::Other, branch(40, "four", None)],
    });
    let mut at = |selected: usize| {
        panes.branches_selected = selected;
        panes.branch_at_selection()
    };
    assert_eq!(at(1), Some((1, s("listed1"), None)));
    assert_eq!(at(2), Some((20, s("two"), Some(9))));
    assert_eq!(at(3), Some((3, s("listed3"), None)));
    assert_eq!(at(4), Some((40, s("four"), None)));
    assert_eq!(at(5), Some((5, s("listed5"), None)));
    assert_eq!(at(8), None);
}

#[test]
fn window_may_be_shorter_than_it_claims() {
    let mut panes = panes();
    panes.tags_window = Some(PaneWindow {
        start: 0,
        end: 9,
        rows: vec![GraphPaneRow::Tag { name: s("v1") }],
    });
    panes.tags_sorted = vec![(1, s("a")), (2, s("b"))];
    assert_eq!(panes.tag_at_selection(), Some(s("v1")));
    panes.tags_selected = 1;
    assert_eq!(panes.tag_at_selection(), Some(s("b")));
    panes.tags_selected = 2;
    assert_eq!(panes.tag_at_selection(), None);
}

#[test]
fn branch_row_in_the_tag_window_is_no_tag() {
    let mut panes = panes();
    panes.tags_window = Some(PaneWindow {
        start: 0,
        end: 1,
        rows: vec![GraphPaneRow::Branch { alias: 1, name: s("main"), graph_index: None }],
    });
    assert_eq!(panes.tag_at_selection(), None);
}

#[test]
fn tags_of_the_row_win_over_those_recorded() {
    let mut panes = panes();
    assert_eq!(panes.tags_at_cursor(), Vec::<String>::new());
    panes.tags_local.insert(7, names(&["recorded"]));
    assert_eq!(panes.tags_at_cursor(), Vec::<String>::new());
    panes.cursor.alias = Some(8);
    assert_eq!(panes.tags_at_cursor(), Vec::<String>::new());
    panes.cursor.alias = Some(7);
    assert_eq!(panes.tags_at_cursor(), names(&["recorded"]));
    panes.cursor.row = Some(GraphRow { oid: oid(1), is_stash: false, tags: names(&["v1", "v2"]) });
    assert_eq!(panes.tags_at_cursor(), names(&["v1", "v2"]));
    panes.cursor.row = Some(GraphRow { oid: oid(1), is_stash: false, tags: Vec::new() });
    assert_eq!(panes.tags_at_cursor(), Vec::<String>::new());
}

#[test]
fn checked_out_branch_is_not_deletable() {
    let mut panes = panes();
    panes.cursor.branch_choices = names(&["main", "topic", "origin/main"]);
    assert_eq!(
        panes.graph_deletable_branch_choices(&Some(s("main"))),
        names(&["topic", "origin/main"])
    );
    assert_eq!(panes.graph_deletable_branch_choices(&None), names(&["main", "topic", "origin/main"]));
    assert_eq!(
        panes.graph_deletable_branch_choices(&Some(s("other"))),
        names(&["main", "topic", "origin/main"])
    );
}
