//! What a call of each executable function comes to. The laws beside these speak of states
//! and values; these tie them to the functions that a host calls.
use crate::app::{App, AppView};
use crate::effect::{CheckoutOrigin, Effect, GitCommand, OperationStep};
use crate::laws::network::{is_trimmed, law_one_way_to_trim};
use crate::laws::operations::{amid, in_progress, law_state_tells_the_operation, unfinished};
use crate::laws::panes::{
    carries_tags, law_branch_pane_is_on_one_branch_or_none, law_cursor_sees_all_tags,
    law_first_position_is_found, law_tag_pane_is_on_one_tag_or_none, on_branch, on_no_branch,
    on_no_tag, on_tag,
};
use crate::laws::{lists, refuses, Input};
use crate::message::{ErrorText, FailedAction};
use crate::names::{copy_names, holds, texts, NameSet};
use crate::open::{git_env_active, open_repo, GitEnv, OpenMode};
use crate::operation::{
    CherrypickOutcome, MergeOutcome, OperationKind, OperationMessage, PendingOperationAction,
    RebaseOutcome, RevertOutcome,
};
use crate::panes::{find_position, Panes};
use crate::paths::{same_path, same_place};
use crate::repository::{RepoSnapshot, RepositoryState};
use crate::request::{AuthProtocol, NetworkPoll, NetworkRequest, NetworkResult};
use crate::scan::{
    all_records, compute_signature, full_plan, hash_path, hash_tree, scan_plan, writes, ByteOrder,
    Observation, PathRecord, Probe,
};
use crate::text::{law_halves_join, split_once, trim};
use crate::watcher::{distinct_dirs, watched_dirs, GitWatcher};
use git2::Oid;
use std::collections::hash_map::DefaultHasher;
use vstd::prelude::*;

verus! {

/// Each key press about the network, searches, staging and stashes is handled as its own
/// input and no other.
pub proof fn law_first_inputs_are_handled(app: &mut App)
    ensures
        call_ensures(App::on_drop, (app,), ()) ==> final(app)@ == old(app)@.after_drop(),
        call_ensures(App::on_pop, (app,), ()) ==> final(app)@ == old(app)@.after_pop(),
        call_ensures(App::on_stash, (app,), ()) ==> final(app)@ == old(app)@.after_stash(),
        call_ensures(App::on_find, (app,), ()) ==> final(app)@ == old(app)@.after_find(),
        call_ensures(App::on_find_file, (app,), ()) ==> final(app)@ == old(
            app,
        )@.after_find_file(),
        call_ensures(App::on_fetch_all, (app,), ()) ==> final(app)@ == old(
            app,
        )@.after_fetch_all(),
        call_ensures(App::on_force_push, (app,), ()) ==> final(app)@ == old(
            app,
        )@.after_force_push(),
        call_ensures(App::on_push_tags, (app,), ()) ==> final(app)@ == old(
            app,
        )@.after_push_tags(),
        call_ensures(App::on_unstage, (app,), ()) ==> final(app)@ == old(app)@.after_unstage(),
        call_ensures(App::on_stage, (app,), ()) ==> final(app)@ == old(app)@.after_stage(),
        call_ensures(App::on_commit, (app,), ()) ==> final(app)@ == old(app)@.after_commit(),
{
}

/// Each key press about commits, branches, tags and operations is handled as its own input
/// and no other.
pub proof fn law_other_inputs_are_handled(app: &mut App)
    ensures
        call_ensures(App::on_checkout, (app,), ()) ==> final(app)@ == old(app)@.after_checkout(),
        call_ensures(App::on_hard_reset, (app,), ()) ==> final(app)@ == old(
            app,
        )@.after_hard_reset(),
        call_ensures(App::on_mixed_reset, (app,), ()) ==> final(app)@ == old(
            app,
        )@.after_mixed_reset(),
        call_ensures(App::on_create_branch, (app,), ()) ==> final(app)@ == old(
            app,
        )@.after_create_branch(),
        call_ensures(App::on_rename_branch, (app,), ()) ==> final(app)@ == old(
            app,
        )@.after_rename_branch(),
        call_ensures(App::on_delete_branch, (app,), ()) ==> final(app)@ == old(
            app,
        )@.after_delete_branch(),
        call_ensures(App::on_tag, (app,), ()) ==> final(app)@ == old(app)@.after_tag(),
        call_ensures(App::on_untag, (app,), ()) ==> final(app)@ == old(app)@.after_untag(),
        call_ensures(App::on_cherrypick, (app,), ()) ==> final(app)@ == old(
            app,
        )@.after_cherrypick(),
        call_ensures(App::on_revert, (app,), ()) ==> final(app)@ == old(app)@.after_revert(),
        call_ensures(App::on_rebase, (app,), ()) ==> final(app)@ == old(app)@.after_rebase(),
        call_ensures(App::on_merge, (app,), ()) ==> final(app)@ == old(app)@.after_merge(),
        call_ensures(App::on_continue_operation, (app,), ()) ==> final(app)@ == old(
            app,
        )@.after_continue_operation(),
        call_ensures(App::on_abort_operation, (app,), ()) ==> final(app)@ == old(
            app,
        )@.after_abort_operation(),
{
}

/// The inputs by name are the key presses of that name.
pub proof fn law_inputs_go_by_their_names(state: AppView)
    ensures
        state.after_input(Input::Drop) == state.after_drop(),
        state.after_input(Input::Pop) == state.after_pop(),
        state.after_input(Input::Stash) == state.after_stash(),
        state.after_input(Input::Find) == state.after_find(),
        state.after_input(Input::FindFile) == state.after_find_file(),
        state.after_input(Input::FetchAll) == state.after_fetch_all(),
        state.after_input(Input::Checkout) == state.after_checkout(),
        state.after_input(Input::HardReset) == state.after_hard_reset(),
        state.after_input(Input::MixedReset) == state.after_mixed_reset(),
        state.after_input(Input::Unstage) == state.after_unstage(),
        state.after_input(Input::Stage) == state.after_stage(),
        state.after_input(Input::Commit) == state.after_commit(),
        state.after_input(Input::ForcePush) == state.after_force_push(),
        state.after_input(Input::PushTags) == state.after_push_tags(),
        state.after_input(Input::CreateBranch) == state.after_create_branch(),
        state.after_input(Input::RenameBranch) == state.after_rename_branch(),
        state.after_input(Input::DeleteBranch) == state.after_delete_branch(),
        state.after_input(Input::Tag) == state.after_tag(),
        state.after_input(Input::Untag) == state.after_untag(),
        state.after_input(Input::Cherrypick) == state.after_cherrypick(),
        state.after_input(Input::Revert) == state.after_revert(),
        state.after_input(Input::Rebase) == state.after_rebase(),
        state.after_input(Input::Merge) == state.after_merge(),
        state.after_input(Input::ContinueOperation) == state.after_continue_operation(),
        state.after_input(Input::AbortOperation) == state.after_abort_operation(),
{
}

/// The network is started, retried, heard, cancelled and answered as the laws on it say.
pub proof fn law_network_calls_are_handled(
    app: &mut App,
    request: NetworkRequest,
    poll: NetworkPoll,
    result: NetworkResult,
)
    ensures
        call_ensures(App::start_network_request, (app, request), ()) ==> final(app)@ == old(
            app,
        )@.started(request@),
        call_ensures(App::retry_pending_network_request, (app,), ()) ==> final(app)@ == old(
            app,
        )@.retried(),
        call_ensures(App::poll_network_request, (app, poll), ()) ==> final(app)@ == old(
            app,
        )@.network_polled(poll@),
        call_ensures(App::handle_network_result, (app, result), ()) ==> final(app)@ == old(
            app,
        )@.network_ended(result@),
        call_ensures(App::cancel_auth_prompt, (app,), ()) ==> final(app)@ == old(
            app,
        )@.auth_cancelled(),
        call_ensures(App::submit_auth_prompt, (app,), ()) ==> final(app)@ == old(
            app,
        )@.auth_submitted(),
{
}

/// Branch prompts and deletions from the screen are about the branch they are called with.
pub proof fn law_branch_calls_are_handled(
    app: &mut App,
    branch: String,
    name: &String,
    target: Option<Oid>,
)
    ensures
        call_ensures(App::open_branch_rename_modal, (app, branch), ()) ==> final(app)@ == old(
            app,
        )@.renaming(branch@),
        call_ensures(App::delete_branch_from_ui, (app, name), ()) ==> final(app)@ == old(
            app,
        )@.deleting(name@),
        call_ensures(App::clear_pending_branch_target, (app,), ()) ==> final(app)@ == (AppView {
            pending_branch_target_oid: None,
            ..old(app)@
        }),
        call_ensures(App::selected_branch_target_oid, (&*old(app),), target) ==> target == old(
            app,
        )@.branch_target(),
{
}

/// What the host reports is taken note of as it was reported.
pub proof fn law_reports_are_handled(
    app: &mut App,
    command: GitCommand,
    result: Result<(), String>,
    alias: u32,
    origin: CheckoutOrigin,
    hidden: NameSet,
    cause: String,
)
    ensures
        call_ensures(App::command_finished, (app, command, result), ()) ==> final(app)@ == old(
            app,
        )@.command_ended(command@, result),
        call_ensures(App::branch_checkout_finished, (app, alias, origin, hidden, result), ())
            ==> final(app)@ == old(app)@.branch_checkout_ended(alias, origin, hidden@, result),
        call_ensures(App::stash_repository_failed, (app, cause), ()) ==> refuses(
            old(app)@,
            final(app)@,
            ErrorText::Failed { action: FailedAction::OpenRepository, cause: cause@ },
        ),
{
}

/// Operations are taken up and their outcomes shown as the laws on them say.
pub proof fn law_operation_calls_are_handled(
    app: &mut App,
    action: PendingOperationAction,
    opened: Result<RepositoryState, String>,
    rebase: Result<RebaseOutcome, String>,
    merge: Result<MergeOutcome, String>,
    cherrypick: Result<CherrypickOutcome, String>,
    revert: Result<RevertOutcome, String>,
    kind: OperationKind,
    message: OperationMessage,
)
    ensures
        call_ensures(App::run_pending_operation_action, (app,), ()) ==> final(app)@ == old(
            app,
        )@.pending_operation_run(),
        call_ensures(App::operation_repository_opened, (app, action, opened), ()) ==> final(app)@
            == old(app)@.operation_opened(action, opened),
        call_ensures(App::handle_rebase_result, (app, rebase), ()) ==> final(app)@ == old(
            app,
        )@.rebase_ended(rebase),
        call_ensures(App::handle_merge_result, (app, merge), ()) ==> final(app)@ == old(
            app,
        )@.merge_ended(merge),
        call_ensures(App::handle_cherrypick_result, (app, cherrypick), ()) ==> final(app)@ == old(
            app,
        )@.cherrypick_ended(cherrypick),
        call_ensures(App::handle_revert_result, (app, revert), ()) ==> final(app)@ == old(
            app,
        )@.revert_ended(revert),
        call_ensures(App::show_operation_conflict, (app, kind, message), ()) ==> final(app)@
            == old(app)@.operation_conflict(kind, message@),
{
}

/// What is queued is handed over whole and in order, and nothing else changes.
pub proof fn law_effects_are_handed_over(app: &mut App, effects: Vec<Effect>)
    requires
        call_ensures(App::take_effects, (app,), effects),
    ensures
        effects@.len() == old(app).effects@.len(),
        forall|i: int|
            0 <= i < effects@.len() ==> (#[trigger] effects@[i])@ == old(app).effects@[i]@,
        final(app)@ == (AppView { effects: Seq::empty(), ..old(app)@ }),
{
    let shown = crate::app::effect_views(effects@);
    assert(shown.len() == effects@.len());
    assert forall|i: int| 0 <= i < effects@.len() implies (#[trigger] effects@[i])@ == old(
        app,
    ).effects@[i]@ by {
        assert(shown[i] == effects@[i]@);
        assert(crate::app::effect_views(old(app).effects@)[i] == old(app).effects@[i]@);
    }
}

/// What is read of a repository is what it holds.
pub proof fn law_repository_is_read_as_it_is(
    repo: &RepoSnapshot,
    state: RepositoryState,
    active: Option<OperationKind>,
    kind: OperationKind,
    busy: bool,
    name: &String,
    local: bool,
)
    ensures
        call_ensures(App::active_operation_kind, (repo,), active) ==> (active == Some(kind)
            <==> in_progress(*repo, kind)),
        call_ensures(RepositoryState::active_operation, (state,), active) ==> (active == Some(kind)
            <==> amid(state, kind)),
        call_ensures(RepoSnapshot::is_busy, (repo,), busy) ==> busy == unfinished(*repo),
        call_ensures(RepoSnapshot::has_local_branch, (repo, name), local) ==> local == lists(
            repo.local_branches@,
            name@,
        ),
{
    law_state_tells_the_operation(repo.state, kind);
    law_state_tells_the_operation(state, kind);
    lemma_lists_text(repo.local_branches@, name@);
}

proof fn lemma_lists_text(names: Seq<String>, name: Seq<char>)
    ensures
        lists(names, name) <==> texts(names).contains(name),
{
    if lists(names, name) {
        let i = choose|i: int| 0 <= i < names.len() && (#[trigger] names[i])@ == name;
        assert(texts(names)[i] == name);
    }
    if texts(names).contains(name) {
        let i = choose|i: int| 0 <= i < texts(names).len() && texts(names)[i] == name;
        assert(names[i]@ == name);
    }
}

/// The name of the submodule at a path is that of the law on submodules.
pub proof fn law_submodule_is_read_as_it_is(
    repo: &RepoSnapshot,
    path: &String,
    found: Option<String>,
)
    requires
        call_ensures(RepoSnapshot::submodule_name_for_status_path, (repo, path), found),
    ensures
        found is Some <==> repo.submodule(path@) is Some,
        found matches Some(name) ==> repo.submodule(path@) == Some(name@),
{
}

/// The panes are read as the laws on them say.
pub proof fn law_panes_are_read_as_they_are(
    panes: &Panes,
    branch: Option<(u32, String, Option<usize>)>,
    tag: Option<String>,
    carried: Seq<String>,
    tags: Vec<String>,
)
    ensures
        call_ensures(Panes::branch_at_selection, (panes,), branch) ==> {
            &&& branch matches Some((alias, name, index)) ==> on_branch(*panes, alias, name@, index)
            &&& branch is None ==> on_no_branch(*panes)
        },
        call_ensures(Panes::tag_at_selection, (panes,), tag) ==> {
            &&& tag matches Some(name) ==> on_tag(*panes, name@)
            &&& tag is None ==> on_no_tag(*panes)
        },
        call_ensures(Panes::tags_at_cursor, (panes,), tags) && carries_tags(*panes, carried) ==> {
            &&& tags@.len() == carried.len()
            &&& forall|i: int|
                0 <= i < carried.len() ==> (#[trigger] tags@[i])@ == carried[i]@
        },
{
    if let Some((alias, name, index)) = branch {
        law_branch_pane_is_on_one_branch_or_none(*panes, alias, name@, index);
    } else {
        law_branch_pane_is_on_one_branch_or_none(*panes, 0, Seq::empty(), None);
    }
    if let Some(name) = tag {
        law_tag_pane_is_on_one_tag_or_none(*panes, name@);
    } else {
        law_tag_pane_is_on_one_tag_or_none(*panes, Seq::empty());
    }
    if carries_tags(*panes, carried) {
        law_cursor_sees_all_tags(*panes, carried);
    }
    if call_ensures(Panes::tags_at_cursor, (panes,), tags) && carries_tags(*panes, carried) {
        assert(texts(tags@).len() == tags@.len());
        assert forall|i: int| 0 <= i < carried.len() implies (#[trigger] tags@[i])@
            == carried[i]@ by {
            assert(texts(tags@)[i] == tags@[i]@);
        }
    }
}

/// The branches that may be deleted are those of the law on them, and each is a label of the
/// commit other than the checked-out branch.
pub proof fn law_deletable_branches_are_read_as_they_are(
    panes: &Panes,
    current: &Option<String>,
    names: Vec<String>,
)
    requires
        call_ensures(Panes::graph_deletable_branch_choices, (panes, current), names),
    ensures
        forall|i: int|
            0 <= i < names@.len() ==> lists(
                panes.cursor.branch_choices@,
                (#[trigger] names@[i])@,
            ) && (current matches Some(current) ==> current@ != names@[i]@),
        forall|name: Seq<char>|
            lists(panes.cursor.branch_choices@, name) && (current matches Some(current)
                ==> current@ != name) ==> #[trigger] lists(names@, name),
{
    let all = texts(panes.cursor.branch_choices@);
    let checked_out = crate::repository::text_of(*current);
    let pass = |name: Seq<char>| checked_out != Some(name);
    let kept = all.filter(pass);
    assert(texts(names@) == kept);
    crate::laws::panes::lemma_filter_members(all, pass);
    assert forall|i: int| 0 <= i < names@.len() implies lists(
        panes.cursor.branch_choices@,
        (#[trigger] names@[i])@,
    ) && (current matches Some(current) ==> current@ != names@[i]@) by {
        assert(kept[i] == names@[i]@);
        assert(kept.contains(names@[i]@));
        lemma_lists_text(panes.cursor.branch_choices@, names@[i]@);
        assert(pass(names@[i]@));
    }
    assert forall|name: Seq<char>|
        lists(panes.cursor.branch_choices@, name) && (current matches Some(current)
            ==> current@ != name) implies #[trigger] lists(names@, name) by {
        lemma_lists_text(panes.cursor.branch_choices@, name);
        lemma_lists_text(names@, name);
        assert(pass(name));
    }
}

/// Texts, names and paths are worked on as the laws on them say.
pub proof fn law_texts_are_worked_on_as_told(
    text: &String,
    inner: String,
    mark: char,
    parts: Option<(String, String)>,
    other: &String,
    same: bool,
)
    ensures
        call_ensures(trim, (text,), inner) ==> is_trimmed(text@, inner@),
        call_ensures(split_once, (text, mark), parts) ==> {
            &&& parts is Some <==> text@.contains(mark)
            &&& parts matches Some((before, after)) ==> before@ + seq![mark] + after@ == text@
                && !before@.contains(mark)
        },
        call_ensures(same_path, (text, other), same) ==> same == same_place(text@, other@),
{
    law_one_way_to_trim(text@, inner@);
    law_halves_join(text@, mark);
}

/// Lists of names hold what is in them.
pub proof fn law_lists_of_names_hold_what_is_in_them(
    names: &Vec<String>,
    name: &String,
    found: bool,
    copy: Vec<String>,
)
    ensures
        call_ensures(holds, (names, name), found) ==> found == lists(names@, name@),
        call_ensures(copy_names, (names,), copy) ==> copy@.len() == names@.len() && forall|i: int|
            0 <= i < names@.len() ==> (#[trigger] copy@[i])@ == names@[i]@,
{
    lemma_lists_text(names@, name@);
    if call_ensures(copy_names, (names,), copy) {
        assert(texts(copy@).len() == copy@.len());
        assert(texts(names@).len() == names@.len());
        assert forall|i: int| 0 <= i < names@.len() implies (#[trigger] copy@[i])@
            == names@[i]@ by {
            assert(texts(copy@)[i] == copy@[i]@);
            assert(texts(names@)[i] == names@[i]@);
        }
    }
}

/// A set holds the names it was made of, and loses only the one that is taken out.
pub proof fn law_sets_hold_the_names_they_were_made_of(
    list: Vec<String>,
    set: NameSet,
    name: Seq<char>,
    changed: &mut NameSet,
    taken: &String,
    given: Vec<String>,
    wanted: &String,
    found: bool,
)
    ensures
        call_ensures(NameSet::from_names, (list,), set) ==> (set@.contains(name) <==> lists(
            list@,
            name,
        )),
        call_ensures(NameSet::remove, (changed, taken), ()) ==> (final(changed)@.contains(name)
            <==> old(changed)@.contains(name) && name != taken@),
        call_ensures(NameSet::to_names, (&set,), given) ==> (lists(given@, name)
            <==> set@.contains(name)),
        call_ensures(NameSet::contains, (&set, wanted), found) ==> found == set@.contains(wanted@),
{
    lemma_lists_text(list@, name);
    lemma_lists_text(given@, name);
}

/// A position is that of the first occurrence.
pub proof fn law_position_is_that_of_the_first(
    items: &Vec<u32>,
    item: u32,
    position: Option<usize>,
)
    requires
        call_ensures(find_position, (items, item), position),
    ensures
        position is Some <==> items@.contains(item),
        position matches Some(at) ==> at < items@.len() && items@[at as int] == item && forall|
            i: int,
        |
            0 <= i < at ==> items@[i] != item,
{
    law_first_position_is_found(items@, item);
}

/// A repository is opened from the environment if that names one, is searched for if it names
/// a work tree only, and is taken where it is otherwise.
pub proof fn law_environment_decides_how_to_open<P>(
    path: P,
    env: GitEnv,
    mode: OpenMode<P>,
    active: bool,
)
    ensures
        call_ensures(open_repo::<P>, (path, env), mode) ==> {
            &&& env.git_dir ==> mode == OpenMode::<P>::FromEnv
            &&& !env.git_dir && env.work_tree ==> mode == OpenMode::DiscoverThenEnv(path)
            &&& !env.git_dir && !env.work_tree ==> mode == OpenMode::Path(path)
        },
        call_ensures(git_env_active, (env,), active) ==> (active <==> env.git_dir
            || env.work_tree),
{
}

/// Commands, steps and protocols are classified as they are.
pub proof fn law_kinds_are_told_apart(
    command: &GitCommand,
    action: FailedAction,
    fresh: bool,
    step: OperationStep,
    kind: OperationKind,
    protocol: &AuthProtocol,
    http: bool,
)
    ensures
        call_ensures(GitCommand::<String>::failed_action, (command,), action) ==> action
            == command@.action(),
        call_ensures(GitCommand::<String>::needs_fresh_repository, (command,), fresh) ==> (fresh
            <==> command is DropStash || command is PopStash || command is Stash),
        call_ensures(OperationStep::kind, (step,), kind) ==> kind == step.operation(),
        call_ensures(AuthProtocol::is_http, (protocol,), http) ==> (http <==> *protocol
            != AuthProtocol::Ssh),
{
}

/// Every record that a scan comes to is hashed, in order and in the machine's byte order.
pub proof fn law_signature_is_of_the_whole_scan(
    order: ByteOrder,
    scan: &Vec<Observation>,
    signature: u64,
)
    requires
        call_ensures(compute_signature, (order, scan), signature),
    ensures
        signature == <DefaultHasher as
            vstd::std_specs::hash::DefaultHasherAdditionalSpecFns>::spec_finish(
            writes(order, all_records(scan@)),
        ),
{
}

/// A path adds its text and a mark, and then one byte if it is absent, or its size and, where
/// it has one, its time.
pub proof fn law_path_is_hashed_in_full(
    hasher: &mut DefaultHasher,
    order: ByteOrder,
    record: &PathRecord,
)
    requires
        call_ensures(hash_path, (hasher, order, record), ()),
    ensures
        ({
            let mark = seq![0xffu8];
            let named = old(hasher)@.push(vstd::utf8::encode_utf8(record.path@)).push(mark);
            &&& record.meta is None ==> final(hasher)@ == named.push(mark)
            &&& record.meta matches Some(meta) ==> {
                let size = vstd::bytes::spec_u64_to_le_bytes(meta.len);
                let sized = named.push(
                    if order is Little {
                        size
                    } else {
                        size.reverse()
                    },
                );
                &&& meta.modified is None ==> final(hasher)@ == sized
                &&& meta.modified matches Some(nanos) ==> {
                    let time = vstd::bytes::spec_u128_to_le_bytes(nanos);
                    final(hasher)@ == sized.push(
                        if order is Little {
                            time
                        } else {
                            time.reverse()
                        },
                    )
                }
            }
        }),
{
}

/// A tree adds what its entries add, or what its root adds if it is not there.
pub proof fn law_tree_is_hashed_in_full(
    hasher: &mut DefaultHasher,
    order: ByteOrder,
    root: &PathRecord,
    exists: bool,
    entries: &Vec<PathRecord>,
)
    requires
        call_ensures(hash_tree, (hasher, order, root, exists, entries), ()),
    ensures
        exists ==> final(hasher)@ == old(hasher)@ + writes(
            order,
            Seq::new(entries@.len(), |i: int| entries@[i]@),
        ),
        !exists ==> final(hasher)@ == old(hasher)@ + writes(order, seq![root@]),
{
    assert(crate::scan::record_views(entries@) =~= Seq::new(
        entries@.len(),
        |i: int| entries@[i]@,
    ));
}

/// The plan of a scan is the full one.
pub proof fn law_plan_is_the_full_one(dirs: usize, plan: Vec<Probe>)
    requires
        call_ensures(scan_plan, (dirs,), plan),
    ensures
        plan@.len() == full_plan(dirs as int).len(),
        forall|i: int|
            0 <= i < plan@.len() ==> {
                let planned = full_plan(dirs as int)[i];
                &&& (#[trigger] plan@[i]).dir == planned.dir
                &&& plan@[i].kind == planned.kind
                &&& plan@[i].name@ == planned.name
            },
{
    let shown = crate::scan::probes(plan@);
    assert(shown.len() == plan@.len());
    assert forall|i: int| 0 <= i < plan@.len() implies {
        let planned = full_plan(dirs as int)[i];
        &&& (#[trigger] plan@[i]).dir == planned.dir
        &&& plan@[i].kind == planned.kind
        &&& plan@[i].name@ == planned.name
    } by {
        assert(shown[i] == plan@[i]@);
    }
}

/// A new watcher has seen its baseline, is at rest and has never polled; it waits three
/// seconds for quiet and half a second between scans.
pub proof fn law_new_watcher_is_at_rest(
    git_dir: String,
    common_dir: String,
    order: ByteOrder,
    baseline: &Vec<Observation>,
    watcher: GitWatcher,
    signature: u64,
    dirs: Vec<String>,
)
    ensures
        call_ensures(GitWatcher::new, (git_dir, common_dir, order, baseline), watcher) ==> {
            &&& watcher@.dirs == distinct_dirs(git_dir@, common_dir@)
            &&& watcher@.order == order
            &&& watcher@.debounce == 3_000_000_000
            &&& watcher@.poll_interval == 500_000_000
            &&& watcher@.last_poll is None
            &&& watcher@.pending_since is None
            &&& !watcher@.owed
            &&& call_ensures(compute_signature, (order, baseline), signature) ==> watcher@.signature
                == signature
        },
        call_ensures(watched_dirs, (git_dir, common_dir), dirs) ==> texts(dirs@) == distinct_dirs(
            git_dir@,
            common_dir@,
        ),
{
}

/// A poll is one with the signature of the scan it is given.
pub proof fn law_poll_is_with_the_signature_of_the_scan(
    watcher: &mut GitWatcher,
    now: u64,
    scan: &Vec<Observation>,
    reload: bool,
    signature: u64,
)
    requires
        call_ensures(GitWatcher::poll, (watcher, now, scan), reload),
        call_ensures(compute_signature, (old(watcher)@.order, scan), signature),
    ensures
        final(watcher)@ == old(watcher)@.polled(now, signature),
        reload == old(watcher)@.reload_due(now, signature),
{
}

/// The host is told to scan exactly if the next poll looks at the scan.
pub proof fn law_scan_is_due_if_the_poll_looks(
    watcher: &GitWatcher,
    now: u64,
    due: bool,
    count: usize,
)
    ensures
        call_ensures(GitWatcher::scan_due, (watcher, now), due) ==> due
            == crate::laws::watching::looks(watcher@, now),
        call_ensures(GitWatcher::dir_count, (watcher,), count) ==> count == watcher@.dirs.len(),
{
}

} // verus!
