//! A search that is begun and given up.

use vstd::prelude::*;
use crate::keys::{KeyCode, KeyEvent, KeyEventKind, KeyModifiers};
use crate::model::{AppMode, AppView};
use crate::visible::visible_entries;

verus! {

/// The state after the characters of `text` are typed into the search,
/// one by one.
pub open spec fn typed(s: AppView, text: Seq<char>) -> AppView
    decreases text.len(),
{
    if text.len() == 0 {
        s
    } else {
        typed(s, text.drop_last()).search_typed(text.last())
    }
}

/// Typing changes the search text, the visible rows and the cursor, and
/// nothing else.
pub proof fn lemma_typed(s: AppView, text: Seq<char>)
    ensures
        typed(s, text).mode == s.mode,
        typed(s, text).processes == s.processes,
        typed(s, text).sort_by == s.sort_by,
        typed(s, text).sort_ascending == s.sort_ascending,
        typed(s, text).exit_search_mode() == s.exit_search_mode(),
    decreases text.len(),
{
    if text.len() > 0 {
        lemma_typed(s, text.drop_last());
    }
}

/// A search that is begun and given up leaves no trace. Where, while the
/// list is shown, all rows are visible and the cursor is on the first one,
/// beginning a search, typing any text and cancelling gives back the same
/// visible rows and the same cursor.
///
/// With some rows filtered away before, or the cursor further down, the
/// cancelled search does leave a trace: it shows all rows and puts the
/// cursor on the first.
pub proof fn lemma_cancelled_search_restores(s: AppView, text: Seq<char>)
    requires
        s.wf(),
        s.mode == AppMode::ProcessList,
        s.filtered_processes == visible_entries(
            s.processes,
            Seq::empty(),
            s.sort_by,
            s.sort_ascending,
        ),
        s.selected_index == 0,
    ensures
        typed(s.enter_search_mode(), text).exit_search_mode().filtered_processes
            == s.filtered_processes,
        typed(s.enter_search_mode(), text).exit_search_mode().selected_index == s.selected_index,
        typed(s.enter_search_mode(), text).exit_search_mode().selected() == s.selected(),
        typed(s.enter_search_mode(), text).exit_search_mode().mode == AppMode::ProcessList,
{
    lemma_typed(s.enter_search_mode(), text);
}

/// Whatever the state before, a cancelled search ends with the list
/// shown, no search text, all rows visible and the cursor on the first.
pub proof fn lemma_cancelled_search_shows_all(s: AppView, text: Seq<char>)
    ensures
        typed(s.enter_search_mode(), text).exit_search_mode().mode == AppMode::ProcessList,
        typed(s.enter_search_mode(), text).exit_search_mode().search_query.len() == 0,
        typed(s.enter_search_mode(), text).exit_search_mode().selected_index == 0,
        typed(s.enter_search_mode(), text).exit_search_mode().filtered_processes
            == visible_entries(s.processes, Seq::empty(), s.sort_by, s.sort_ascending),
{
    lemma_typed(s.enter_search_mode(), text);
}

/// When exactly a cancelled search gives back the visible rows and the
/// cursor: when all rows were visible before and the cursor was on the
/// first.
pub proof fn lemma_cancelled_search_restores_exactly_when(s: AppView, text: Seq<char>)
    ensures
        ({
            let after = typed(s.enter_search_mode(), text).exit_search_mode();
            after.filtered_processes == s.filtered_processes && after.selected_index
                == s.selected_index
        }) <==> s.filtered_processes == visible_entries(
            s.processes,
            Seq::empty(),
            s.sort_by,
            s.sort_ascending,
        ) && s.selected_index == 0,
{
    lemma_cancelled_search_shows_all(s, text);
}

/// The press of a key with no modifier.
pub open spec fn press(code: KeyCode) -> KeyEvent {
    KeyEvent {
        code,
        modifiers: KeyModifiers { shift: false, control: false, alt: false, other: false },
        kind: KeyEventKind::Press,
    }
}

/// The state after the keys of the characters of `text` are pressed, one
/// by one.
pub open spec fn keyed(s: AppView, text: Seq<char>) -> AppView
    decreases text.len(),
{
    if text.len() == 0 {
        s
    } else {
        keyed(s, text.drop_last()).on_key(press(KeyCode::Char(text.last()))).0
    }
}

/// While the search text is edited, the keys of characters type them.
pub proof fn lemma_keys_type(s: AppView, text: Seq<char>)
    requires
        s.mode == AppMode::Search,
    ensures
        keyed(s, text) == typed(s, text),
    decreases text.len(),
{
    if text.len() > 0 {
        lemma_keys_type(s, text.drop_last());
        lemma_typed(s, text.drop_last());
    }
}

/// The same of the keys themselves: with all rows visible and the cursor
/// on the first, the key that begins a search, the keys of any text and
/// the key that cancels give back the visible rows and the cursor, and
/// the list is shown again.
pub proof fn lemma_cancelled_search_by_keys_restores(s: AppView, text: Seq<char>)
    requires
        s.wf(),
        s.mode == AppMode::ProcessList,
        s.filtered_processes == visible_entries(
            s.processes,
            Seq::empty(),
            s.sort_by,
            s.sort_ascending,
        ),
        s.selected_index == 0,
    ensures
        ({
            let searching = s.on_key(press(KeyCode::Char('/'))).0;
            let after = keyed(searching, text).on_key(press(KeyCode::Esc)).0;
            &&& searching.mode == AppMode::Search
            &&& after.mode == AppMode::ProcessList
            &&& after.filtered_processes == s.filtered_processes
            &&& after.selected_index == s.selected_index
            &&& after.selected() == s.selected()
            &&& after.list_selected == s.list_selected
            &&& after.search_query.len() == 0
        }),
{
    let cleared = AppView { status_message: None, ..s };
    let searching = s.on_key(press(KeyCode::Char('/'))).0;
    assert(searching == cleared.enter_search_mode());
    lemma_keys_type(searching, text);
    lemma_typed(searching, text);
    lemma_cancelled_search_restores(cleared, text);
}

} // verus!
