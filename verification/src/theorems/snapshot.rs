//! A new snapshot and the search text.

use vstd::prelude::*;
use crate::entry::EntryView;
use crate::model::{clamped_index, AppView};
use crate::sorting::{lemma_sorted_len, sorted_entries};
use crate::visible::{filtered_entries, visible_entries};

verus! {

/// A new snapshot clamps the cursor into the new visible rows: a cursor
/// that points at a row stays, one that points beyond goes to the last
/// row, and with no row the cursor is 0 and the list widget selects
/// nothing. The same holds when the snapshot comes as the result of a
/// discovery.
pub proof fn lemma_snapshot_clamps_cursor(s: AppView, snapshot: Seq<EntryView>)
    ensures
        ({
            let after = s.with_snapshot(snapshot);
            let n = after.filtered_processes.len();
            &&& n > 0 && s.selected_index < n ==> after.selected_index == s.selected_index
            &&& n > 0 && s.selected_index >= n ==> after.selected_index == n - 1
            &&& n > 0 ==> after.list_selected == Some(after.selected_index)
            &&& n == 0 ==> after.selected_index == 0 && after.list_selected is None
            &&& after.selected_index == clamped_index(s.selected_index, n)
            &&& after.loaded
        }),
        s.refreshed(Ok(snapshot)).selected_index == s.with_snapshot(snapshot).selected_index,
        s.refreshed(Ok(snapshot)).list_selected == s.with_snapshot(snapshot).list_selected,
        s.refreshed(Ok(snapshot)).filtered_processes == s.with_snapshot(
            snapshot,
        ).filtered_processes,
        s.refreshed(Ok(snapshot)).loaded,
{
}

/// A search text that matches no row of a new snapshot is discarded: the
/// visible rows are then all rows of the snapshot, in the current order.
pub proof fn lemma_snapshot_discards_dead_query(s: AppView, snapshot: Seq<EntryView>)
    requires
        s.search_query.len() > 0,
        filtered_entries(snapshot, s.search_query).len() == 0,
    ensures
        s.with_snapshot(snapshot).search_query.len() == 0,
        s.with_snapshot(snapshot).processes == snapshot,
        s.with_snapshot(snapshot).filtered_processes == sorted_entries(
            snapshot,
            s.sort_by,
            s.sort_ascending,
        ),
        s.with_snapshot(snapshot).filtered_processes == visible_entries(
            snapshot,
            Seq::empty(),
            s.sort_by,
            s.sort_ascending,
        ),
        s.refreshed(Ok(snapshot)).search_query.len() == 0,
        s.refreshed(Ok(snapshot)).processes == snapshot,
        s.refreshed(Ok(snapshot)).filtered_processes == sorted_entries(
            snapshot,
            s.sort_by,
            s.sort_ascending,
        ),
        s.refreshed(Ok(snapshot)).sort_by == s.sort_by,
        s.refreshed(Ok(snapshot)).sort_ascending == s.sort_ascending,
{
    lemma_sorted_len(filtered_entries(snapshot, s.search_query), s.sort_by, s.sort_ascending);
}

/// A search text that still matches a row of a new snapshot stays.
pub proof fn lemma_snapshot_keeps_live_query(s: AppView, snapshot: Seq<EntryView>)
    requires
        filtered_entries(snapshot, s.search_query).len() > 0,
    ensures
        s.with_snapshot(snapshot).search_query == s.search_query,
        s.with_snapshot(snapshot).filtered_processes == visible_entries(
            snapshot,
            s.search_query,
            s.sort_by,
            s.sort_ascending,
        ),
{
    lemma_sorted_len(filtered_entries(snapshot, s.search_query), s.sort_by, s.sort_ascending);
}

} // verus!
