//! Every transition keeps the invariant of the state.

use vstd::prelude::*;
use crate::entry::EntryView;
use crate::keys::{Event, KeyEvent};
use crate::model::{AppMode, AppView, Screen};
use crate::order::SortBy;
use crate::sorting::lemma_sorted_len;
use crate::visible::filtered_entries;

verus! {

/// Every key keeps the invariant of the state.
pub proof fn lemma_key_keeps_invariant(s: AppView, key: KeyEvent)
    requires
        s.wf(),
    ensures
        s.on_key(key).0.wf(),
{
    match s.mode {
        AppMode::ProcessList => {
            let cleared = AppView { status_message: None, ..s };
            assert(cleared.wf());
            lemma_list_key_keeps_invariant(cleared, key);
        },
        AppMode::ConfirmKill => {},
        AppMode::Search => {
            lemma_edits_keep_invariant(s);
        },
    }
}

/// Another sort key or direction keeps the number of visible rows, and
/// the invariant with it.
pub proof fn lemma_sort_settings_keep_invariant(s: AppView, key: SortBy)
    requires
        s.wf(),
    ensures
        s.set_sort(key).filtered_processes.len() == s.filtered_processes.len(),
        s.cycle_sort().filtered_processes.len() == s.filtered_processes.len(),
        s.set_sort(key).wf(),
        s.cycle_sort().wf(),
{
    let kept = filtered_entries(s.processes, s.search_query);
    lemma_sorted_len(kept, s.sort_by, s.sort_ascending);
    lemma_sorted_len(kept, s.sort_by, !s.sort_ascending);
    lemma_sorted_len(kept, key, false);
    lemma_sorted_len(kept, s.sort_by.successor(), s.sort_ascending);
}

/// The moves of the cursor and the edits of the search text keep the
/// invariant.
pub proof fn lemma_edits_keep_invariant(s: AppView)
    requires
        s.wf(),
    ensures
        s.select_next().wf(),
        s.select_previous().wf(),
        s.enter_confirm_mode().wf(),
        s.enter_search_mode().wf(),
        s.exit_search_mode().wf(),
        s.apply_search().wf(),
        forall|c: char| #[trigger] s.search_typed(c).wf(),
        s.search_erased().wf(),
        s.confirm_kill().0.wf(),
        s.cancel_kill().wf(),
        s.quit().wf(),
{
}

/// Every key pressed while the list is shown keeps the invariant.
proof fn lemma_list_key_keeps_invariant(s: AppView, key: KeyEvent)
    requires
        s.wf(),
    ensures
        s.on_key_in_list(key).0.wf(),
{
    lemma_edits_keep_invariant(s);
    lemma_sort_settings_keep_invariant(s, SortBy::Port);
    lemma_sort_settings_keep_invariant(s, SortBy::Pid);
    lemma_sort_settings_keep_invariant(s, SortBy::User);
    lemma_sort_settings_keep_invariant(s, SortBy::Command);
    lemma_sort_settings_keep_invariant(s, SortBy::Memory);
    lemma_sort_settings_keep_invariant(s, SortBy::StartTime);
}

/// Every terminal event keeps the invariant of the state.
pub proof fn lemma_event_keeps_invariant(s: AppView, event: Event)
    requires
        s.wf(),
    ensures
        s.on_event(event).0.wf(),
{
    match event {
        Event::Key(key) => {
            lemma_key_keeps_invariant(s, key);
        },
        Event::Other => {},
    }
}

/// Every result of a discovery and of a signal keeps the invariant of the
/// state, and so does a frame of the spinner.
pub proof fn lemma_results_keep_invariant(
    s: AppView,
    discovery: Result<Seq<EntryView>, Seq<char>>,
    failure: Option<Seq<char>>,
)
    requires
        s.wf(),
    ensures
        s.refreshed(discovery).wf(),
        forall|snapshot: Seq<EntryView>| #[trigger] s.with_snapshot(snapshot).wf(),
        s.terminate_done(failure).0.wf(),
        s.force_terminate_done(failure).0.wf(),
        s.tick_animation().wf(),
        s.start().wf(),
{
}

/// An error is shown alone: whatever else the state holds, the screen is
/// the error screen.
pub proof fn lemma_error_takes_the_screen(s: AppView)
    requires
        s.error_message is Some,
    ensures
        s.screen() == Screen::Error,
{
}

} // verus!
