//! The interaction state machine as a mathematical model: the state as
//! plain values and each transition as a function on it.

use vstd::prelude::*;
use crate::entry::EntryView;
use crate::keys::{Event, KeyCode, KeyEvent, KeyEventKind};
use crate::lsof::KillError;
use crate::order::SortBy;
use crate::visible::visible_entries;

verus! {

/// What the keys mean at the moment.
#[derive(Clone, Copy, Debug, PartialEq, Eq, Structural)]
pub enum AppMode {
    /// The list is shown and navigated.
    ProcessList,
    /// A dialog asks whether to end the selected process.
    ConfirmKill,
    /// The keys edit the search text.
    Search,
}

/// What the caller has to do after a transition, before it waits for the
/// next event.
#[derive(Debug)]
pub enum Action {
    /// Nothing.
    Nothing,
    /// Run a discovery and hand its result to `refresh_processes`.
    Refresh,
    /// Send the graceful signal to `pid` and hand the result to
    /// `terminate_done`.
    Terminate { pid: String },
    /// Send the unconditional signal to `pid` and hand the result to
    /// `force_terminate_done`.
    ForceTerminate { pid: String },
    /// Wait the grace period in which the system releases the socket, then
    /// do as for `Refresh`.
    PauseThenRefresh,
}

/// An `Action` as plain values.
pub enum ActionView {
    Nothing,
    Refresh,
    Terminate { pid: Seq<char> },
    ForceTerminate { pid: Seq<char> },
    PauseThenRefresh,
}

impl View for Action {
    type V = ActionView;

    open spec fn view(&self) -> ActionView {
        match self {
            Action::Nothing => ActionView::Nothing,
            Action::Refresh => ActionView::Refresh,
            Action::Terminate { pid } => ActionView::Terminate { pid: pid@ },
            Action::ForceTerminate { pid } => ActionView::ForceTerminate { pid: pid@ },
            Action::PauseThenRefresh => ActionView::PauseThenRefresh,
        }
    }
}

/// How far the termination of a process has got.
pub enum KillStageView {
    /// No termination is under way.
    Idle,
    /// The graceful signal is being sent.
    Terminating { command: Seq<char>, pid: Seq<char> },
    /// The graceful signal failed with `first_error`; the unconditional
    /// signal is being sent.
    Forcing { command: Seq<char>, pid: Seq<char>, first_error: Seq<char> },
}

/// What fills the screen below the header.
#[derive(Clone, Copy, Debug, PartialEq, Eq, Structural)]
pub enum Screen {
    /// The error message, alone, with how to retry and how to quit.
    Error,
    /// The spinner and the loading notice.
    Loading,
    /// The message that no process is listening.
    Empty,
    /// The visible rows.
    List,
}

/// The notice shown until the first snapshot has arrived.
pub open spec fn loading_notice() -> Seq<char> {
    "Loading processes..."@
}

/// The notice of a process ended by the graceful signal.
pub open spec fn killed_notice(command: Seq<char>, pid: Seq<char>) -> Seq<char> {
    "Successfully killed process "@ + command + " ("@ + pid + ")"@
}

/// The notice of a process ended by the unconditional signal.
pub open spec fn force_killed_notice(command: Seq<char>, pid: Seq<char>) -> Seq<char> {
    "Force killed process "@ + command + " ("@ + pid + ")"@
}

/// The message shown when both signals failed: it holds both reasons.
pub open spec fn kill_failure_message(first: Seq<char>, second: Seq<char>) -> Seq<char> {
    "Failed to kill process: "@ + first + " | Force kill also failed: "@ + second
}

/// The message shown when a discovery failed.
pub open spec fn discovery_failure_message(reason: Seq<char>) -> Seq<char> {
    "Failed to get processes: "@ + reason
}

/// A cursor clamped into `len` rows: itself where it points at a row, the
/// last row where it points beyond, 0 where there is no row.
pub open spec fn clamped_index(index: nat, len: nat) -> nat {
    if len == 0 {
        0
    } else if index >= len {
        (len - 1) as nat
    } else {
        index
    }
}

/// The state of the application as plain values.
pub struct AppView {
    pub running: bool,
    pub loaded: bool,
    pub processes: Seq<EntryView>,
    pub filtered_processes: Seq<EntryView>,
    pub error_message: Option<Seq<char>>,
    pub status_message: Option<Seq<char>>,
    pub mode: AppMode,
    pub selected_index: nat,
    /// The row that the list widget has selected.
    pub list_selected: Option<nat>,
    pub confirm_button_selected: bool,
    pub search_query: Seq<char>,
    pub sort_by: SortBy,
    pub sort_ascending: bool,
    pub loading_animation_frame: nat,
    pub kill_stage: KillStageView,
}

impl AppView {
    /// The visible rows that the snapshot, the search text and the sort
    /// settings give.
    pub open spec fn expected_rows(self) -> Seq<EntryView> {
        visible_entries(self.processes, self.search_query, self.sort_by, self.sort_ascending)
    }

    /// The invariant of the state: the visible rows are those that the
    /// snapshot, the search text and the sort settings give; the cursor
    /// points at one of them, or is 0 where there is none; the list widget
    /// has selected the row under the cursor; the spinner shows one of its
    /// ten frames.
    pub open spec fn wf(self) -> bool {
        &&& self.filtered_processes == self.expected_rows()
        &&& self.selected_index < self.filtered_processes.len() || self.selected_index == 0
        &&& self.list_selected == self.selected()
        &&& self.loading_animation_frame < 10
    }

    /// The list widget told to select the row under the cursor.
    pub open spec fn selection_synced(self) -> AppView {
        AppView { list_selected: self.selected(), ..self }
    }

    /// What fills the screen: an error message before everything else;
    /// else, with no row in the snapshot, the loading notice until the
    /// first snapshot has arrived and the empty message after; else the
    /// rows.
    pub open spec fn screen(self) -> Screen {
        if self.error_message is Some {
            Screen::Error
        } else if self.processes.len() == 0 {
            if !self.loaded && self.status_message is Some {
                Screen::Loading
            } else {
                Screen::Empty
            }
        } else {
            Screen::List
        }
    }

    /// The row under the cursor; `None` where no row is visible.
    pub open spec fn selected(self) -> Option<nat> {
        if self.selected_index < self.filtered_processes.len() {
            Some(self.selected_index)
        } else {
            None
        }
    }

    /// The state at startup, before anything is shown.
    pub open spec fn initial() -> AppView {
        AppView {
            running: false,
            loaded: false,
            processes: Seq::empty(),
            filtered_processes: visible_entries(
                Seq::empty(),
                Seq::empty(),
                SortBy::Port,
                false,
            ),
            error_message: None,
            status_message: None,
            mode: AppMode::ProcessList,
            selected_index: 0,
            list_selected: None,
            confirm_button_selected: true,
            search_query: Seq::empty(),
            sort_by: SortBy::Port,
            sort_ascending: false,
            loading_animation_frame: 0,
            kill_stage: KillStageView::Idle,
        }
    }

    /// The visible rows computed anew.
    pub open spec fn recomputed(self) -> AppView {
        AppView { filtered_processes: self.expected_rows(), ..self }
    }

    /// The search text replaced, the visible rows computed anew and the
    /// cursor back on the first row.
    pub open spec fn with_query(self, query: Seq<char>) -> AppView {
        AppView { search_query: query, selected_index: 0, ..self }.recomputed().selection_synced()
    }

    /// The run loop begins.
    pub open spec fn start(self) -> AppView {
        AppView { running: true, ..self }
    }

    /// The run loop is to end.
    pub open spec fn quit(self) -> AppView {
        AppView { running: false, ..self }
    }

    /// The spinner moves on by one frame.
    pub open spec fn tick_animation(self) -> AppView {
        AppView { loading_animation_frame: (self.loading_animation_frame + 1) % 10, ..self }
    }

    /// The cursor moves down by one row and from the last row to the
    /// first; with no row it stays.
    pub open spec fn select_next(self) -> AppView {
        if self.filtered_processes.len() == 0 {
            self
        } else if self.selected_index + 1 < self.filtered_processes.len() {
            AppView { selected_index: self.selected_index + 1, ..self }.selection_synced()
        } else {
            AppView { selected_index: 0, ..self }.selection_synced()
        }
    }

    /// The cursor moves up by one row and from the first row to the last;
    /// with no row it stays.
    pub open spec fn select_previous(self) -> AppView {
        if self.filtered_processes.len() == 0 {
            self
        } else if self.selected_index > 0 {
            AppView { selected_index: (self.selected_index - 1) as nat, ..self }.selection_synced()
        } else {
            AppView {
                selected_index: (self.filtered_processes.len() - 1) as nat,
                ..self
            }.selection_synced()
        }
    }

    /// The dialog opens, with "yes" highlighted; with no row it does not.
    pub open spec fn enter_confirm_mode(self) -> AppView {
        if self.filtered_processes.len() == 0 {
            self
        } else {
            AppView { mode: AppMode::ConfirmKill, confirm_button_selected: true, ..self }
        }
    }

    /// The keys begin to edit the search text.
    pub open spec fn enter_search_mode(self) -> AppView {
        AppView { mode: AppMode::Search, ..self }
    }

    /// The search is given up: the text is discarded.
    pub open spec fn exit_search_mode(self) -> AppView {
        AppView { mode: AppMode::ProcessList, ..self }.with_query(Seq::empty())
    }

    /// The search is taken over: the text stays.
    pub open spec fn apply_search(self) -> AppView {
        AppView { mode: AppMode::ProcessList, ..self }.with_query(self.search_query)
    }

    /// One character is typed into the search text.
    pub open spec fn search_typed(self, c: char) -> AppView {
        self.with_query(self.search_query.push(c))
    }

    /// The last character of the search text is erased.
    pub open spec fn search_erased(self) -> AppView {
        self.with_query(
            if self.search_query.len() == 0 {
                self.search_query
            } else {
                self.search_query.drop_last()
            },
        )
    }

    /// The next sort key of the cycle is taken; the direction stays.
    pub open spec fn cycle_sort(self) -> AppView {
        AppView { sort_by: self.sort_by.successor(), ..self }.recomputed()
    }

    /// A sort key is chosen: the current one again turns the direction
    /// round, another one starts descending.
    pub open spec fn set_sort(self, key: SortBy) -> AppView {
        if self.sort_by == key {
            AppView { sort_ascending: !self.sort_ascending, ..self }.recomputed()
        } else {
            AppView { sort_by: key, sort_ascending: false, ..self }.recomputed()
        }
    }

    /// A new snapshot replaces the old one, and a snapshot has arrived. The
    /// visible rows are computed anew; where a search text matches no row
    /// of the new snapshot it is discarded and all rows are visible; a
    /// cursor beyond the last row goes to the last row; the list widget
    /// selects the row under the cursor. Neither message changes.
    pub open spec fn with_snapshot(self, snapshot: Seq<EntryView>) -> AppView {
        let replaced = AppView { processes: snapshot, ..self }.recomputed();
        let healed = if replaced.search_query.len() > 0 && replaced.filtered_processes.len() == 0 {
            AppView { search_query: Seq::empty(), ..replaced }.recomputed()
        } else {
            replaced
        };
        AppView {
            loaded: true,
            selected_index: clamped_index(healed.selected_index, healed.filtered_processes.len()),
            ..healed
        }.selection_synced()
    }

    /// A discovery has ended. A snapshot is taken over and takes the
    /// loading notice away; any other status message stays, and so does
    /// the error message. A failure becomes the error message and leaves
    /// the rows as they are.
    pub open spec fn refreshed(self, result: Result<Seq<EntryView>, Seq<char>>) -> AppView {
        match result {
            Ok(snapshot) => AppView {
                status_message: if self.status_message == Some(loading_notice()) {
                    None
                } else {
                    self.status_message
                },
                ..self.with_snapshot(snapshot)
            },
            Err(reason) => AppView {
                error_message: Some(discovery_failure_message(reason)),
                status_message: None,
                ..self
            },
        }
    }

    /// "Yes" is chosen in the dialog: the list is shown again, and the
    /// process of the row under the cursor, looked up now, is to get the
    /// graceful signal.
    pub open spec fn confirm_kill(self) -> (AppView, ActionView) {
        if self.selected_index < self.filtered_processes.len() {
            let target = self.filtered_processes[self.selected_index as int];
            (
                AppView {
                    mode: AppMode::ProcessList,
                    kill_stage: KillStageView::Terminating {
                        command: target.command,
                        pid: target.pid,
                    },
                    ..self
                },
                ActionView::Terminate { pid: target.pid },
            )
        } else {
            (AppView { mode: AppMode::ProcessList, ..self }, ActionView::Nothing)
        }
    }

    /// "No" is chosen in the dialog: the list is shown again.
    pub open spec fn cancel_kill(self) -> AppView {
        AppView { mode: AppMode::ProcessList, ..self }
    }

    /// The graceful signal has been sent. Success is noticed and followed
    /// by a refresh after the grace period; failure is not shown, the
    /// unconditional signal follows.
    pub open spec fn terminate_done(self, failure: Option<Seq<char>>) -> (AppView, ActionView) {
        match self.kill_stage {
            KillStageView::Terminating { command, pid } => match failure {
                None => (
                    AppView {
                        status_message: Some(killed_notice(command, pid)),
                        error_message: None,
                        mode: AppMode::ProcessList,
                        kill_stage: KillStageView::Idle,
                        ..self
                    },
                    ActionView::PauseThenRefresh,
                ),
                Some(reason) => (
                    AppView {
                        kill_stage: KillStageView::Forcing { command, pid, first_error: reason },
                        ..self
                    },
                    ActionView::ForceTerminate { pid },
                ),
            },
            _ => (self, ActionView::Nothing),
        }
    }

    /// The unconditional signal has been sent. Success is noticed as a
    /// forced kill and followed by a refresh after the grace period;
    /// failure is shown with the reasons of both failures, and no refresh
    /// follows.
    pub open spec fn force_terminate_done(self, failure: Option<Seq<char>>) -> (
        AppView,
        ActionView,
    ) {
        match self.kill_stage {
            KillStageView::Forcing { command, pid, first_error } => match failure {
                None => (
                    AppView {
                        status_message: Some(force_killed_notice(command, pid)),
                        error_message: None,
                        mode: AppMode::ProcessList,
                        kill_stage: KillStageView::Idle,
                        ..self
                    },
                    ActionView::PauseThenRefresh,
                ),
                Some(reason) => (
                    AppView {
                        error_message: Some(kill_failure_message(first_error, reason)),
                        status_message: None,
                        mode: AppMode::ProcessList,
                        kill_stage: KillStageView::Idle,
                        ..self
                    },
                    ActionView::Nothing,
                ),
            },
            _ => (self, ActionView::Nothing),
        }
    }

    /// A key is pressed while the list is shown.
    pub open spec fn on_key_in_list(self, key: KeyEvent) -> (AppView, ActionView) {
        match key.code {
            KeyCode::Esc => if self.search_query.len() > 0 {
                (self.exit_search_mode(), ActionView::Nothing)
            } else {
                (self.quit(), ActionView::Nothing)
            },
            KeyCode::Char(c) => if c == 'q' || ((c == 'c' || c == 'C')
                && key.modifiers.is_control_only()) {
                (self.quit(), ActionView::Nothing)
            } else if c == 'r' || c == 'R' {
                (AppView { error_message: None, ..self }, ActionView::Refresh)
            } else if c == '/' {
                (self.enter_search_mode(), ActionView::Nothing)
            } else if c == 's' || c == 'S' {
                (self.cycle_sort(), ActionView::Nothing)
            } else if c == '1' {
                (self.set_sort(SortBy::Port), ActionView::Nothing)
            } else if c == '2' {
                (self.set_sort(SortBy::Pid), ActionView::Nothing)
            } else if c == '3' {
                (self.set_sort(SortBy::User), ActionView::Nothing)
            } else if c == '4' {
                (self.set_sort(SortBy::Command), ActionView::Nothing)
            } else if c == '5' {
                (self.set_sort(SortBy::Memory), ActionView::Nothing)
            } else if c == '6' {
                (self.set_sort(SortBy::StartTime), ActionView::Nothing)
            } else {
                (self, ActionView::Nothing)
            },
            KeyCode::Up => (self.select_previous(), ActionView::Nothing),
            KeyCode::Down => (self.select_next(), ActionView::Nothing),
            KeyCode::Enter => (self.enter_confirm_mode(), ActionView::Nothing),
            KeyCode::Backspace => if self.search_query.len() > 0 {
                (self.search_erased(), ActionView::Nothing)
            } else {
                (self, ActionView::Nothing)
            },
            _ => (self, ActionView::Nothing),
        }
    }

    /// A key is pressed while the dialog is open.
    pub open spec fn on_key_in_dialog(self, key: KeyEvent) -> (AppView, ActionView) {
        match key.code {
            KeyCode::Char(c) => if c == 'y' || c == 'Y' {
                self.confirm_kill()
            } else if c == 'n' || c == 'N' {
                (self.cancel_kill(), ActionView::Nothing)
            } else {
                (self, ActionView::Nothing)
            },
            KeyCode::Esc => (self.cancel_kill(), ActionView::Nothing),
            KeyCode::Left => (
                AppView { confirm_button_selected: true, ..self },
                ActionView::Nothing,
            ),
            KeyCode::Right => (
                AppView { confirm_button_selected: false, ..self },
                ActionView::Nothing,
            ),
            KeyCode::Enter => if self.confirm_button_selected {
                self.confirm_kill()
            } else {
                (self.cancel_kill(), ActionView::Nothing)
            },
            _ => (self, ActionView::Nothing),
        }
    }

    /// A key is pressed while the search text is edited.
    pub open spec fn on_key_in_search(self, key: KeyEvent) -> (AppView, ActionView) {
        match key.code {
            KeyCode::Esc => (self.exit_search_mode(), ActionView::Nothing),
            KeyCode::Enter => (self.apply_search(), ActionView::Nothing),
            KeyCode::Backspace => (self.search_erased(), ActionView::Nothing),
            KeyCode::Char(c) => (self.search_typed(c), ActionView::Nothing),
            _ => (self, ActionView::Nothing),
        }
    }

    /// A key is pressed. While the list is shown every key first takes
    /// the status message away.
    pub open spec fn on_key(self, key: KeyEvent) -> (AppView, ActionView) {
        match self.mode {
            AppMode::ProcessList => AppView { status_message: None, ..self }.on_key_in_list(key),
            AppMode::ConfirmKill => self.on_key_in_dialog(key),
            AppMode::Search => self.on_key_in_search(key),
        }
    }

    /// A terminal event arrives: only the press of a key counts.
    pub open spec fn on_event(self, event: Event) -> (AppView, ActionView) {
        match event {
            Event::Key(key) => if key.kind == KeyEventKind::Press {
                self.on_key(key)
            } else {
                (self, ActionView::Nothing)
            },
            Event::Other => (self, ActionView::Nothing),
        }
    }
}

/// The failure of a signal as text; `None` for success.
pub open spec fn kill_failure(result: Result<(), KillError>) -> Option<Seq<char>> {
    match result {
        Ok(_) => None,
        Err(e) => Some(e.message_text()),
    }
}

} // verus!
