//! The application state and its transitions. Nothing here runs a process,
//! reads a key or waits: each transition takes what happened and returns
//! what is to be done next.

use vstd::prelude::*;
use vstd::slice::slice_subrange;
use vstd::string::StringExecFns;
use ratatui::widgets::ListState;
use crate::entry::LsofEntry;
use crate::keys::{Event, KeyCode, KeyEvent, KeyEventKind};
use crate::lsof::{DiscoveryError, KillError};
use crate::model::{
    clamped_index,
    kill_failure,
    loading_notice,
    Action,
    AppMode,
    AppView,
    KillStageView,
    Screen,
};
use crate::order::SortBy;
use crate::selection::{selection_of, selection_view};
use crate::text::{chars_of, str_equal, string_of};
use crate::theorems::well_formed::{lemma_key_keeps_invariant, lemma_results_keep_invariant};
use crate::visible::compute_view;

verus! {

/// How far the termination of a process has got.
#[derive(Debug)]
pub enum KillStage {
    Idle,
    Terminating { command: String, pid: String },
    Forcing { command: String, pid: String, first_error: String },
}

impl View for KillStage {
    type V = KillStageView;

    open spec fn view(&self) -> KillStageView {
        match self {
            KillStage::Idle => KillStageView::Idle,
            KillStage::Terminating { command, pid } => KillStageView::Terminating {
                command: command@,
                pid: pid@,
            },
            KillStage::Forcing { command, pid, first_error } => KillStageView::Forcing {
                command: command@,
                pid: pid@,
                first_error: first_error@,
            },
        }
    }
}

/// The text of an optional message.
pub open spec fn message_view(message: Option<String>) -> Option<Seq<char>> {
    match message {
        Some(text) => Some(text@),
        None => None,
    }
}

/// The snapshot or the failure of a discovery, as plain values.
pub open spec fn discovery_view(result: Result<Vec<LsofEntry>, DiscoveryError>) -> Result<
    Seq<crate::entry::EntryView>,
    Seq<char>,
> {
    match result {
        Ok(snapshot) => Ok(snapshot.deep_view()),
        Err(e) => Err(e.message_text()),
    }
}

/// The state of the application.
#[derive(Debug)]
pub struct App {
    running: bool,
    loaded: bool,
    processes: Vec<LsofEntry>,
    filtered_processes: Vec<LsofEntry>,
    error_message: Option<String>,
    status_message: Option<String>,
    mode: AppMode,
    selected_index: usize,
    list_state: ListState,
    confirm_button_selected: bool,
    search_query: String,
    sort_by: SortBy,
    sort_ascending: bool,
    loading_animation_frame: usize,
    kill_stage: KillStage,
}

impl View for App {
    type V = AppView;

    closed spec fn view(&self) -> AppView {
        AppView {
            running: self.running,
            loaded: self.loaded,
            processes: self.processes.deep_view(),
            filtered_processes: self.filtered_processes.deep_view(),
            error_message: message_view(self.error_message),
            status_message: message_view(self.status_message),
            mode: self.mode,
            selected_index: self.selected_index as nat,
            list_selected: selection_view(selection_of(self.list_state)),
            confirm_button_selected: self.confirm_button_selected,
            search_query: self.search_query@,
            sort_by: self.sort_by,
            sort_ascending: self.sort_ascending,
            loading_animation_frame: self.loading_animation_frame as nat,
            kill_stage: self.kill_stage@,
        }
    }
}

impl Default for App {
    /// The state at startup: no row, no message, the list shown, ordered
    /// by port, descending.
    fn default() -> (app: App)
        ensures
            app@ == AppView::initial(),
            app@.wf(),
    {
        let processes: Vec<LsofEntry> = Vec::new();
        let filtered_processes = compute_view(&processes, "", SortBy::Port, false);
        proof {
            reveal_strlit("");
            assert(""@ =~= Seq::<char>::empty());
            assert(processes.deep_view() =~= Seq::empty());
        }
        App {
            running: false,
            loaded: false,
            processes,
            filtered_processes,
            error_message: None,
            status_message: None,
            mode: AppMode::ProcessList,
            selected_index: 0,
            list_state: ListState::default(),
            confirm_button_selected: true,
            search_query: String::new(),
            sort_by: SortBy::Port,
            sort_ascending: false,
            loading_animation_frame: 0,
            kill_stage: KillStage::Idle,
        }
    }
}

impl App {
    /// The state at startup, with the notice that the rows are loading.
    pub fn new() -> (app: App)
        ensures
            app@ == (AppView { status_message: Some(loading_notice()), ..AppView::initial() }),
            app@.wf(),
    {
        let mut app = App::default();
        app.status_message = Some(String::from_str("Loading processes..."));
        app
    }

    /// Whether the run loop is to go on.
    pub fn is_running(&self) -> (running: bool)
        ensures
            running == self@.running,
    {
        self.running
    }

    /// Whether a snapshot has arrived yet.
    pub fn has_loaded(&self) -> (loaded: bool)
        ensures
            loaded == self@.loaded,
    {
        self.loaded
    }

    /// What the keys mean at the moment.
    pub fn mode(&self) -> (mode: AppMode)
        ensures
            mode == self@.mode,
    {
        self.mode
    }

    /// The latest snapshot.
    pub fn processes(&self) -> (rows: &Vec<LsofEntry>)
        ensures
            rows.deep_view() == self@.processes,
    {
        &self.processes
    }

    /// The visible rows.
    pub fn filtered_processes(&self) -> (rows: &Vec<LsofEntry>)
        ensures
            rows.deep_view() == self@.filtered_processes,
    {
        &self.filtered_processes
    }

    /// The index of the cursor; 0 where no row is visible.
    pub fn selected_index(&self) -> (index: usize)
        ensures
            index == self@.selected_index,
    {
        self.selected_index
    }

    /// The index of the row under the cursor; `None` where no row is
    /// visible.
    pub fn selected(&self) -> (index: Option<usize>)
        ensures
            match self@.selected() {
                Some(i) => index == Some(i as usize),
                None => index is None,
            },
    {
        if self.selected_index < self.filtered_processes.len() {
            Some(self.selected_index)
        } else {
            None
        }
    }

    /// The row under the cursor.
    pub fn selected_process(&self) -> (row: Option<&LsofEntry>)
        ensures
            match self@.selected() {
                Some(i) => row matches Some(entry) && entry@ == self@.filtered_processes[i as int],
                None => row is None,
            },
    {
        if self.selected_index < self.filtered_processes.len() {
            Some(&self.filtered_processes[self.selected_index])
        } else {
            None
        }
    }

    /// The error message, if one is shown.
    pub fn error_message(&self) -> (message: &Option<String>)
        ensures
            message_view(*message) == self@.error_message,
    {
        &self.error_message
    }

    /// The status message, if one is shown.
    pub fn status_message(&self) -> (message: &Option<String>)
        ensures
            message_view(*message) == self@.status_message,
    {
        &self.status_message
    }

    /// Whether "yes" is highlighted in the dialog.
    pub fn confirm_button_selected(&self) -> (yes: bool)
        ensures
            yes == self@.confirm_button_selected,
    {
        self.confirm_button_selected
    }

    /// The search text.
    pub fn search_query(&self) -> (query: &str)
        ensures
            query@ == self@.search_query,
    {
        self.search_query.as_str()
    }

    /// The sort key.
    pub fn sort_by(&self) -> (key: SortBy)
        ensures
            key == self@.sort_by,
    {
        self.sort_by
    }

    /// Whether the rows are in ascending order.
    pub fn sort_ascending(&self) -> (ascending: bool)
        ensures
            ascending == self@.sort_ascending,
    {
        self.sort_ascending
    }

    /// The frame of the spinner.
    pub fn loading_animation_frame(&self) -> (frame: usize)
        ensures
            frame == self@.loading_animation_frame,
    {
        self.loading_animation_frame
    }

    /// Whether a signal is under way whose result is still owed.
    pub fn is_kill_pending(&self) -> (pending: bool)
        ensures
            pending == !(self@.kill_stage is Idle),
    {
        match self.kill_stage {
            KillStage::Idle => false,
            _ => true,
        }
    }

    /// What fills the screen below the header.
    pub fn screen(&self) -> (screen: Screen)
        ensures
            screen == self@.screen(),
    {
        if self.error_message.is_some() {
            Screen::Error
        } else if self.processes.is_empty() {
            if !self.loaded && self.status_message.is_some() {
                Screen::Loading
            } else {
                Screen::Empty
            }
        } else {
            Screen::List
        }
    }

    /// The state of the list widget, for the drawing.
    pub fn list_state(&self) -> (state: &ListState)
        ensures
            selection_view(selection_of(*state)) == self@.list_selected,
    {
        &self.list_state
    }

    /// The state of the list widget, for a drawing that scrolls. The
    /// widget may move the selection of a state that points beyond the
    /// rows it draws; the state machine sets it with every move of the
    /// cursor.
    pub fn list_state_mut(&mut self) -> (state: &mut ListState)
        ensures
            selection_view(selection_of(*state)) == old(self)@.list_selected,
            final(self)@ == (AppView {
                list_selected: selection_view(selection_of(*final(state))),
                ..old(self)@
            }),
    {
        &mut self.list_state
    }

    /// Tells the list widget to select the row under the cursor.
    fn sync_list_state(&mut self)
        ensures
            final(self)@ == old(self)@.selection_synced(),
    {
        let index = if self.selected_index < self.filtered_processes.len() {
            Some(self.selected_index)
        } else {
            None
        };
        self.list_state.select(index);
    }

    /// Computes the visible rows anew.
    fn apply_filter_and_sort(&mut self)
        ensures
            final(self)@ == old(self)@.recomputed(),
    {
        self.filtered_processes = compute_view(
            &self.processes,
            self.search_query.as_str(),
            self.sort_by,
            self.sort_ascending,
        );
    }

    /// Replaces the search text, computes the visible rows anew and puts
    /// the cursor on the first row.
    fn set_query(&mut self, query: String)
        ensures
            final(self)@ == old(self)@.with_query(query@),
    {
        self.search_query = query;
        self.selected_index = 0;
        self.apply_filter_and_sort();
        self.sync_list_state();
    }

    /// Marks the run loop as begun.
    pub fn start(&mut self)
        ensures
            final(self)@ == old(self)@.start(),
    {
        self.running = true;
    }

    /// Asks the run loop to end.
    pub fn quit(&mut self)
        ensures
            final(self)@ == old(self)@.quit(),
    {
        self.running = false;
    }

    /// Moves the spinner on by one frame.
    pub fn tick_animation(&mut self)
        ensures
            final(self)@ == old(self)@.tick_animation(),
    {
        self.loading_animation_frame = (self.loading_animation_frame % 10 + 1) % 10;
    }

    /// Moves the cursor up by one row, from the first row to the last.
    pub fn select_previous(&mut self)
        ensures
            final(self)@ == old(self)@.select_previous(),
    {
        if !self.filtered_processes.is_empty() {
            if self.selected_index > 0 {
                self.selected_index -= 1;
            } else {
                self.selected_index = self.filtered_processes.len() - 1;
            }
            self.sync_list_state();
        }
    }

    /// Moves the cursor down by one row, from the last row to the first.
    pub fn select_next(&mut self)
        ensures
            final(self)@ == old(self)@.select_next(),
    {
        if !self.filtered_processes.is_empty() {
            if self.selected_index < self.filtered_processes.len() - 1 {
                self.selected_index += 1;
            } else {
                self.selected_index = 0;
            }
            self.sync_list_state();
        }
    }

    /// Opens the dialog, if a row is visible.
    pub fn enter_confirm_mode(&mut self)
        ensures
            final(self)@ == old(self)@.enter_confirm_mode(),
    {
        if !self.filtered_processes.is_empty() {
            self.mode = AppMode::ConfirmKill;
            self.confirm_button_selected = true;
        }
    }

    /// Lets the keys edit the search text.
    pub fn enter_search_mode(&mut self)
        ensures
            final(self)@ == old(self)@.enter_search_mode(),
    {
        self.mode = AppMode::Search;
    }

    /// Gives the search up and discards its text.
    pub fn exit_search_mode(&mut self)
        ensures
            final(self)@ == old(self)@.exit_search_mode(),
    {
        self.mode = AppMode::ProcessList;
        self.set_query(String::new());
    }

    /// Takes the search over and keeps its text.
    pub fn apply_search(&mut self)
        ensures
            final(self)@ == old(self)@.apply_search(),
    {
        self.mode = AppMode::ProcessList;
        self.selected_index = 0;
        self.apply_filter_and_sort();
        self.sync_list_state();
    }

    /// Types one character into the search text.
    pub fn type_in_search(&mut self, c: char)
        ensures
            final(self)@ == old(self)@.search_typed(c),
    {
        self.search_query.push(c);
        self.selected_index = 0;
        self.apply_filter_and_sort();
        self.sync_list_state();
    }

    /// Erases the last character of the search text.
    pub fn erase_in_search(&mut self)
        ensures
            final(self)@ == old(self)@.search_erased(),
    {
        let chars = chars_of(self.search_query.as_str());
        let n: usize = chars.len();
        if n > 0 {
            let shorter = string_of(slice_subrange(chars.as_slice(), 0, n - 1));
            assert(shorter@ == old(self)@.search_query.drop_last());
            self.set_query(shorter);
        } else {
            self.selected_index = 0;
            self.apply_filter_and_sort();
            self.sync_list_state();
        }
    }

    /// Takes the next sort key of the cycle.
    pub fn cycle_sort(&mut self)
        ensures
            final(self)@ == old(self)@.cycle_sort(),
    {
        self.sort_by = self.sort_by.next();
        self.apply_filter_and_sort();
    }

    /// Chooses a sort key.
    pub fn set_sort(&mut self, sort_by: SortBy)
        ensures
            final(self)@ == old(self)@.set_sort(sort_by),
    {
        if self.sort_by == sort_by {
            self.sort_ascending = !self.sort_ascending;
        } else {
            self.sort_by = sort_by;
            self.sort_ascending = false;
        }
        self.apply_filter_and_sort();
    }

    /// Replaces the snapshot.
    pub fn apply_snapshot(&mut self, snapshot: Vec<LsofEntry>)
        ensures
            final(self)@ == old(self)@.with_snapshot(snapshot.deep_view()),
            final(self)@.selected_index == clamped_index(
                old(self)@.selected_index,
                final(self)@.filtered_processes.len(),
            ),
            final(self)@.list_selected == final(self)@.selected(),
            old(self)@.wf() ==> final(self)@.wf(),
    {
        proof {
            if old(self)@.wf() {
                lemma_results_keep_invariant(old(self)@, Err(Seq::empty()), None);
            }
        }
        self.processes = snapshot;
        self.apply_filter_and_sort();
        if !self.search_query.as_str().is_empty() && self.filtered_processes.is_empty() {
            self.search_query = String::new();
            self.apply_filter_and_sort();
        }
        let len: usize = self.filtered_processes.len();
        if len == 0 {
            self.selected_index = 0;
        } else if self.selected_index >= len {
            self.selected_index = len - 1;
        }
        self.loaded = true;
        self.sync_list_state();
    }

    /// Takes the result of a discovery.
    pub fn refresh_processes(&mut self, result: Result<Vec<LsofEntry>, DiscoveryError>)
        ensures
            final(self)@ == old(self)@.refreshed(discovery_view(result)),
            result is Ok ==> final(self)@.selected_index == clamped_index(
                old(self)@.selected_index,
                final(self)@.filtered_processes.len(),
            ) && final(self)@.list_selected == final(self)@.selected(),
            result is Ok && old(self)@.status_message != Some(loading_notice())
                ==> final(self)@.status_message == old(self)@.status_message,
            old(self)@.wf() ==> final(self)@.wf(),
    {
        proof {
            if old(self)@.wf() {
                lemma_results_keep_invariant(old(self)@, discovery_view(result), None);
            }
        }
        match result {
            Ok(snapshot) => {
                let is_loading_notice = match &self.status_message {
                    Some(text) => str_equal(text.as_str(), "Loading processes..."),
                    None => false,
                };
                if is_loading_notice {
                    self.status_message = None;
                }
                self.apply_snapshot(snapshot);
            },
            Err(e) => {
                let reason = e.message();
                self.error_message = Some(
                    String::from_str("Failed to get processes: ").concat(reason.as_str()),
                );
                self.status_message = None;
            },
        }
    }

    /// Closes the dialog with "no".
    pub fn cancel_kill(&mut self)
        ensures
            final(self)@ == old(self)@.cancel_kill(),
    {
        self.mode = AppMode::ProcessList;
    }

    /// Closes the dialog with "yes".
    pub fn confirm_kill(&mut self) -> (action: Action)
        ensures
            final(self)@ == old(self)@.confirm_kill().0,
            action@ == old(self)@.confirm_kill().1,
    {
        self.mode = AppMode::ProcessList;
        if self.selected_index < self.filtered_processes.len() {
            let command = self.filtered_processes[self.selected_index].command.clone();
            let pid = self.filtered_processes[self.selected_index].pid.clone();
            let target = pid.clone();
            self.kill_stage = KillStage::Terminating { command, pid };
            Action::Terminate { pid: target }
        } else {
            Action::Nothing
        }
    }

    /// Takes the result of the graceful signal.
    pub fn terminate_done(&mut self, result: Result<(), KillError>) -> (action: Action)
        ensures
            final(self)@ == old(self)@.terminate_done(kill_failure(result)).0,
            action@ == old(self)@.terminate_done(kill_failure(result)).1,
            old(self)@.wf() ==> final(self)@.wf(),
    {
        proof {
            if old(self)@.wf() {
                lemma_results_keep_invariant(old(self)@, Err(Seq::empty()), kill_failure(result));
            }
        }
        let (command, pid) = match &self.kill_stage {
            KillStage::Terminating { command, pid } => (command.clone(), pid.clone()),
            _ => {
                return Action::Nothing;
            },
        };
        match result {
            Ok(_) => {
                self.status_message = Some(
                    String::from_str("Successfully killed process ").concat(
                        command.as_str(),
                    ).concat(" (").concat(pid.as_str()).concat(")"),
                );
                self.error_message = None;
                self.mode = AppMode::ProcessList;
                self.kill_stage = KillStage::Idle;
                Action::PauseThenRefresh
            },
            Err(e) => {
                let target = pid.clone();
                self.kill_stage = KillStage::Forcing { command, pid, first_error: e.message() };
                Action::ForceTerminate { pid: target }
            },
        }
    }

    /// Takes the result of the unconditional signal.
    pub fn force_terminate_done(&mut self, result: Result<(), KillError>) -> (action: Action)
        ensures
            final(self)@ == old(self)@.force_terminate_done(kill_failure(result)).0,
            action@ == old(self)@.force_terminate_done(kill_failure(result)).1,
            old(self)@.wf() ==> final(self)@.wf(),
    {
        proof {
            if old(self)@.wf() {
                lemma_results_keep_invariant(old(self)@, Err(Seq::empty()), kill_failure(result));
            }
        }
        let (command, pid, first_error) = match &self.kill_stage {
            KillStage::Forcing { command, pid, first_error } => (
                command.clone(),
                pid.clone(),
                first_error.clone(),
            ),
            _ => {
                return Action::Nothing;
            },
        };
        self.mode = AppMode::ProcessList;
        self.kill_stage = KillStage::Idle;
        match result {
            Ok(_) => {
                self.status_message = Some(
                    String::from_str("Force killed process ").concat(command.as_str()).concat(
                        " (",
                    ).concat(pid.as_str()).concat(")"),
                );
                self.error_message = None;
                Action::PauseThenRefresh
            },
            Err(e) => {
                let reason = e.message();
                self.error_message = Some(
                    String::from_str("Failed to kill process: ").concat(
                        first_error.as_str(),
                    ).concat(" | Force kill also failed: ").concat(reason.as_str()),
                );
                self.status_message = None;
                Action::Nothing
            },
        }
    }

    /// Takes a key pressed while the list is shown.
    fn on_key_in_list(&mut self, key: KeyEvent) -> (action: Action)
        ensures
            final(self)@ == old(self)@.on_key_in_list(key).0,
            action@ == old(self)@.on_key_in_list(key).1,
    {
        match key.code {
            KeyCode::Esc => {
                if !self.search_query.as_str().is_empty() {
                    self.exit_search_mode();
                } else {
                    self.quit();
                }
            },
            KeyCode::Char(c) => {
                if c == 'q' || ((c == 'c' || c == 'C') && key.modifiers.control_only()) {
                    self.quit();
                } else if c == 'r' || c == 'R' {
                    self.error_message = None;
                    return Action::Refresh;
                } else if c == '/' {
                    self.enter_search_mode();
                } else if c == 's' || c == 'S' {
                    self.cycle_sort();
                } else if c == '1' {
                    self.set_sort(SortBy::Port);
                } else if c == '2' {
                    self.set_sort(SortBy::Pid);
                } else if c == '3' {
                    self.set_sort(SortBy::User);
                } else if c == '4' {
                    self.set_sort(SortBy::Command);
                } else if c == '5' {
                    self.set_sort(SortBy::Memory);
                } else if c == '6' {
                    self.set_sort(SortBy::StartTime);
                }
            },
            KeyCode::Up => {
                self.select_previous();
            },
            KeyCode::Down => {
                self.select_next();
            },
            KeyCode::Enter => {
                self.enter_confirm_mode();
            },
            KeyCode::Backspace => {
                if !self.search_query.as_str().is_empty() {
                    self.erase_in_search();
                }
            },
            _ => {},
        }
        Action::Nothing
    }

    /// Takes a key pressed while the dialog is open.
    fn on_key_in_dialog(&mut self, key: KeyEvent) -> (action: Action)
        ensures
            final(self)@ == old(self)@.on_key_in_dialog(key).0,
            action@ == old(self)@.on_key_in_dialog(key).1,
    {
        match key.code {
            KeyCode::Char(c) => {
                if c == 'y' || c == 'Y' {
                    return self.confirm_kill();
                } else if c == 'n' || c == 'N' {
                    self.cancel_kill();
                }
            },
            KeyCode::Esc => {
                self.cancel_kill();
            },
            KeyCode::Left => {
                self.confirm_button_selected = true;
            },
            KeyCode::Right => {
                self.confirm_button_selected = false;
            },
            KeyCode::Enter => {
                if self.confirm_button_selected {
                    return self.confirm_kill();
                } else {
                    self.cancel_kill();
                }
            },
            _ => {},
        }
        Action::Nothing
    }

    /// Takes a key pressed while the search text is edited.
    fn on_key_in_search(&mut self, key: KeyEvent) -> (action: Action)
        ensures
            final(self)@ == old(self)@.on_key_in_search(key).0,
            action@ == old(self)@.on_key_in_search(key).1,
    {
        match key.code {
            KeyCode::Esc => {
                self.exit_search_mode();
            },
            KeyCode::Enter => {
                self.apply_search();
            },
            KeyCode::Backspace => {
                self.erase_in_search();
            },
            KeyCode::Char(c) => {
                self.type_in_search(c);
            },
            _ => {},
        }
        Action::Nothing
    }

    /// Takes the press of a key and says what is to be done next.
    pub fn on_key_event(&mut self, key: KeyEvent) -> (action: Action)
        ensures
            final(self)@ == old(self)@.on_key(key).0,
            action@ == old(self)@.on_key(key).1,
            old(self)@.wf() ==> final(self)@.wf(),
    {
        proof {
            if old(self)@.wf() {
                lemma_key_keeps_invariant(old(self)@, key);
            }
        }
        match self.mode {
            AppMode::ProcessList => {
                self.status_message = None;
                self.on_key_in_list(key)
            },
            AppMode::ConfirmKill => self.on_key_in_dialog(key),
            AppMode::Search => self.on_key_in_search(key),
        }
    }

    /// Takes a terminal event and says what is to be done next.
    pub fn handle_event(&mut self, event: Event) -> (action: Action)
        ensures
            final(self)@ == old(self)@.on_event(event).0,
            action@ == old(self)@.on_event(event).1,
            old(self)@.wf() ==> final(self)@.wf(),
    {
        match event {
            Event::Key(key) => {
                if key.kind == KeyEventKind::Press {
                    self.on_key_event(key)
                } else {
                    Action::Nothing
                }
            },
            Event::Other => Action::Nothing,
        }
    }
}

} // verus!
