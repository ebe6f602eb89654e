//! The application state.
use crate::effect::{Effect, EffectView};
use crate::message::{Draft, ErrorText, FailedAction};
use crate::names::{texts, NameSet};
use crate::operation::{OperationKind, OperationMessage, PendingOperationAction};
use crate::panes::Panes;
use crate::repository::{text_of, RepoSnapshot};
use crate::request::{AuthChallenge, NetworkRequest};
use crate::screen::{AuthInputField, BranchModalAction, Focus, Viewport};
use git2::Oid;
use vstd::prelude::*;

verus! {

/// The state of the application, as far as git input goes.
///
/// The host keeps `repo`, `path`, `viewport` and `panes` up to date before it
/// passes a key press on, and carries out what is queued in `effects` afterwards.
pub struct App {
    /// What was read of the open repository; `None` when none is open.
    pub repo: Option<RepoSnapshot>,
    /// Where the repository lives.
    pub path: Option<String>,
    pub viewport: Viewport,
    pub panes: Panes,
    pub focus: Focus,
    /// The selected row of the graph.
    pub graph_selected: usize,
    /// The branches not shown in the graph.
    pub hidden_branch_names: NameSet,
    /// A background thread is at work.
    pub network_running: bool,
    pub pending_network_request: Option<NetworkRequest>,
    /// How often credentials have been sent for the pending request.
    pub network_auth_attempts: usize,
    pub pending_auth_prompt: Option<AuthChallenge>,
    pub auth_username_input: String,
    pub auth_secret_input: String,
    pub auth_input_field: AuthInputField,
    /// The request whose label and progress the network modal shows.
    pub modal_network: Option<NetworkRequest>,
    pub pending_operation_action: Option<PendingOperationAction>,
    pub modal_operation_kind: OperationKind,
    pub modal_operation_message: OperationMessage,
    /// Where a new branch is to point, when it is not the selected commit.
    pub pending_branch_target_oid: Option<Oid>,
    pub pending_cherrypick_oid: Option<Oid>,
    pub pending_revert_oid: Option<Oid>,
    /// The branch being renamed.
    pub modal_rename_branch_source: Option<String>,
    pub modal_branch_action: BranchModalAction,
    pub modal_solo_selected: usize,
    pub modal_delete_branch_selected: usize,
    /// The text input that the modals share.
    pub modal_input: Draft,
    /// Where the focus goes when the file search closes.
    pub modal_file_search_return_focus: Focus,
    pub modal_file_search_results: Vec<String>,
    pub modal_file_search_selected: usize,
    pub modal_file_search_scroll: usize,
    /// What the host is to do next.
    pub effects: Vec<Effect>,
}

/// The application state as contracts speak of it.
#[verifier::ext_equal]
pub struct AppView {
    pub repo: Option<RepoSnapshot>,
    pub path: Option<Seq<char>>,
    pub viewport: Viewport,
    pub panes: Panes,
    pub focus: Focus,
    pub graph_selected: usize,
    pub hidden_branch_names: Set<Seq<char>>,
    pub network_running: bool,
    pub pending_network_request: Option<NetworkRequest<Seq<char>>>,
    pub network_auth_attempts: usize,
    pub pending_auth_prompt: Option<AuthChallenge<Seq<char>>>,
    pub auth_username_input: Seq<char>,
    pub auth_secret_input: Seq<char>,
    pub auth_input_field: AuthInputField,
    pub modal_network: Option<NetworkRequest<Seq<char>>>,
    pub pending_operation_action: Option<PendingOperationAction>,
    pub modal_operation_kind: OperationKind,
    pub modal_operation_message: OperationMessage<Seq<char>>,
    pub pending_branch_target_oid: Option<Oid>,
    pub pending_cherrypick_oid: Option<Oid>,
    pub pending_revert_oid: Option<Oid>,
    pub modal_rename_branch_source: Option<Seq<char>>,
    pub modal_branch_action: BranchModalAction,
    pub modal_solo_selected: usize,
    pub modal_delete_branch_selected: usize,
    pub modal_input: Draft<Seq<char>>,
    pub modal_file_search_return_focus: Focus,
    pub modal_file_search_results: Seq<Seq<char>>,
    pub modal_file_search_selected: usize,
    pub modal_file_search_scroll: usize,
    pub effects: Seq<EffectView>,
}

/// A request as contracts speak of it.
pub open spec fn request_of(request: Option<NetworkRequest>) -> Option<NetworkRequest<Seq<char>>> {
    match request {
        Some(request) => Some(request@),
        None => None,
    }
}

/// Effects as contracts speak of them.
pub open spec fn effect_views(effects: Seq<Effect>) -> Seq<EffectView> {
    effects.map_values(|effect: Effect| effect@)
}

impl View for App {
    type V = AppView;

    open spec fn view(&self) -> AppView {
        AppView {
            repo: self.repo,
            path: text_of(self.path),
            viewport: self.viewport,
            panes: self.panes,
            focus: self.focus,
            graph_selected: self.graph_selected,
            hidden_branch_names: self.hidden_branch_names@,
            network_running: self.network_running,
            pending_network_request: request_of(self.pending_network_request),
            network_auth_attempts: self.network_auth_attempts,
            pending_auth_prompt: match self.pending_auth_prompt {
                Some(challenge) => Some(challenge@),
                None => None,
            },
            auth_username_input: self.auth_username_input@,
            auth_secret_input: self.auth_secret_input@,
            auth_input_field: self.auth_input_field,
            modal_network: request_of(self.modal_network),
            pending_operation_action: self.pending_operation_action,
            modal_operation_kind: self.modal_operation_kind,
            modal_operation_message: self.modal_operation_message@,
            pending_branch_target_oid: self.pending_branch_target_oid,
            pending_cherrypick_oid: self.pending_cherrypick_oid,
            pending_revert_oid: self.pending_revert_oid,
            modal_rename_branch_source: text_of(self.modal_rename_branch_source),
            modal_branch_action: self.modal_branch_action,
            modal_solo_selected: self.modal_solo_selected,
            modal_delete_branch_selected: self.modal_delete_branch_selected,
            modal_input: self.modal_input@,
            modal_file_search_return_focus: self.modal_file_search_return_focus,
            modal_file_search_results: texts(self.modal_file_search_results@),
            modal_file_search_selected: self.modal_file_search_selected,
            modal_file_search_scroll: self.modal_file_search_scroll,
            effects: effect_views(self.effects@),
        }
    }
}

impl AppView {
    /// The same state with one more effect queued.
    pub open spec fn queue(self, effect: EffectView) -> AppView {
        AppView { effects: self.effects.push(effect), ..self }
    }

    /// The same state with an error to show.
    pub open spec fn report(self, text: ErrorText<Seq<char>>) -> AppView {
        self.queue(Effect::ShowError(text))
    }

    /// The same state with the failure of an action to show.
    pub open spec fn report_failure(self, action: FailedAction, cause: Seq<char>) -> AppView {
        self.report(ErrorText::Failed { action, cause })
    }

    /// The same state with the focus elsewhere.
    pub open spec fn focusing(self, focus: Focus) -> AppView {
        AppView { focus, ..self }
    }

    /// The path of the repository as it is put into requests.
    pub open spec fn repo_path(self) -> Seq<char> {
        match self.path {
            Some(path) => path,
            None => "."@,
        }
    }

    /// The checked-out branch.
    pub open spec fn current_branch(self) -> Option<Seq<char>> {
        match self.repo {
            Some(repo) => text_of(repo.current_branch),
            None => None,
        }
    }

    /// A branch of this name is local.
    pub open spec fn is_local_branch(self, name: Seq<char>) -> bool {
        self.repo matches Some(repo) && texts(repo.local_branches@).contains(name)
    }

    /// The operation the repository is in the middle of.
    pub open spec fn active_operation(self) -> Option<OperationKind> {
        match self.repo {
            Some(repo) => repo.state.operation(),
            None => None,
        }
    }

    /// The view is one in which the repository is not worked on.
    pub open spec fn in_settings_or_viewer(self) -> bool {
        self.viewport is Settings || self.viewport is Viewer
    }

    /// The graph is showing and has the focus.
    pub open spec fn on_graph(self) -> bool {
        self.viewport is Graph && self.focus is Viewport
    }

    /// Without `name` among the hidden branches. If it was there, the change is
    /// saved.
    pub open spec fn unhiding(self, name: Seq<char>) -> AppView {
        if self.hidden_branch_names.contains(name) {
            let hidden = self.hidden_branch_names.remove(name);
            let shown = AppView { hidden_branch_names: hidden, ..self };
            match self.path {
                Some(path) => shown.queue(Effect::SaveBranchVisibility { path, hidden }),
                None => shown,
            }
        } else {
            self
        }
    }
}

impl App {
    /// Queues an effect.
    pub(crate) fn emit(&mut self, effect: Effect)
        ensures
            final(self)@ == old(self)@.queue(effect@),
    {
        self.effects.push(effect);
        assert(effect_views(self.effects@) =~= effect_views(old(self).effects@).push(effect@));
    }

    /// Queues an error to show.
    pub(crate) fn show_error(&mut self, text: ErrorText)
        ensures
            final(self)@ == old(self)@.report(text@),
    {
        self.emit(Effect::ShowError(text));
    }

    /// Queues the failure of an action to show.
    pub(crate) fn show_failure(&mut self, action: FailedAction, cause: String)
        ensures
            final(self)@ == old(self)@.report_failure(action, cause@),
    {
        self.show_error(ErrorText::Failed { action, cause });
    }

    /// Queues a reload.
    pub(crate) fn reload(&mut self)
        ensures
            final(self)@ == old(self)@.queue(Effect::Reload),
    {
        self.emit(Effect::Reload);
    }

    /// Hands over what is queued and starts afresh.
    pub fn take_effects(&mut self) -> (effects: Vec<Effect>)
        ensures
            effect_views(effects@) == old(self)@.effects,
            final(self)@ == (AppView { effects: Seq::empty(), ..old(self)@ }),
    {
        let mut effects: Vec<Effect> = Vec::new();
        std::mem::swap(&mut effects, &mut self.effects);
        assert(effect_views(self.effects@) =~= Seq::empty());
        effects
    }

    /// Whether the view is one in which the repository is not worked on.
    pub(crate) fn is_in_settings_or_viewer(&self) -> (aside: bool)
        ensures
            aside == self@.in_settings_or_viewer(),
    {
        match self.viewport {
            Viewport::Settings | Viewport::Viewer => true,
            _ => false,
        }
    }

    /// The path of the repository as it is put into requests.
    pub(crate) fn request_path(&self) -> (path: String)
        ensures
            path@ == self@.repo_path(),
    {
        match &self.path {
            Some(path) => path.clone(),
            None => ".".to_owned(),
        }
    }

    /// Shows a branch again if it was hidden, and has the change saved.
    pub(crate) fn unhide(&mut self, name: &String)
        ensures
            final(self)@ == old(self)@.unhiding(name@),
    {
        if self.hidden_branch_names.contains(name) {
            self.hidden_branch_names.remove(name);
            self.save_visibility();
        }
    }

    /// Has the hidden branches saved if it is known where.
    pub(crate) fn save_visibility(&mut self)
        ensures
            final(self)@ == (match old(self)@.path {
                Some(path) => old(self)@.queue(
                    Effect::SaveBranchVisibility { path, hidden: old(self)@.hidden_branch_names },
                ),
                None => old(self)@,
            }),
    {
        let saved = match &self.path {
            Some(path) => Some((path.clone(), self.hidden_branch_names.clone())),
            None => None,
        };
        match saved {
            Some((path, hidden)) => {
                self.emit(Effect::SaveBranchVisibility { path, hidden });
            },
            None => {},
        }
    }
}

} // verus!
