//! What holds of the visible rows of every snapshot.

use vstd::prelude::*;
use crate::entry::EntryView;
use crate::order::SortBy;
use crate::pattern::{is_substring, lowercase_of};
use crate::sorting::{
    is_ordered,
    lemma_sorted_is_ordered,
    lemma_sorted_is_permutation,
    lemma_sorted_len,
};
use crate::theorems::stability::{lemma_sort_is_stable, tied_rows};
use crate::visible::{entry_matches, filtered_entries, matches_query, visible_entries};

verus! {

/// A row passes the search exactly when it is a row of the snapshot and,
/// with a search text, matches it.
pub proof fn lemma_filtered_rows(all: Seq<EntryView>, query: Seq<char>, row: EntryView)
    ensures
        filtered_entries(all, query).contains(row) <==> all.contains(row) && (query.len() == 0
            || entry_matches(row, query)),
{
    let kept = filtered_entries(all, query);
    if query.len() > 0 {
        let matching = matches_query(query);
        if kept.contains(row) {
            all.lemma_filter_contains_rev(matching, row);
            let i = choose|i: int| 0 <= i < kept.len() && kept[i] == row;
            all.lemma_filter_pred(matching, i);
        }
        if all.contains(row) && entry_matches(row, query) {
            let i = choose|i: int| 0 <= i < all.len() && all[i] == row;
            all.lemma_filter_contains(matching, i);
        }
    }
}

/// The visible rows are the rows that pass the search, each as often as
/// the snapshot has it, in the order of the sort key, with the rows of
/// every tie in the order of the snapshot.
pub proof fn lemma_visible_rows(
    all: Seq<EntryView>,
    query: Seq<char>,
    key: SortBy,
    ascending: bool,
)
    ensures
        is_ordered(visible_entries(all, query, key, ascending), key, ascending),
        visible_entries(all, query, key, ascending).len() == filtered_entries(all, query).len(),
        visible_entries(all, query, key, ascending).len() <= all.len(),
        visible_entries(all, query, key, ascending).to_multiset() == filtered_entries(
            all,
            query,
        ).to_multiset(),
        forall|row: EntryView| #[trigger]
            visible_entries(all, query, key, ascending).contains(row) <==> all.contains(row) && (
            query.len() == 0 || entry_matches(row, query)),
        forall|row: EntryView| #[trigger]
            tied_rows(visible_entries(all, query, key, ascending), row, key) == tied_rows(
                filtered_entries(all, query),
                row,
                key,
            ),
{
    broadcast use vstd::seq_lib::group_to_multiset_ensures;

    let kept = filtered_entries(all, query);
    let rows = visible_entries(all, query, key, ascending);
    lemma_sorted_is_ordered(kept, key, ascending);
    lemma_sorted_len(kept, key, ascending);
    lemma_sorted_is_permutation(kept, key, ascending);
    if query.len() > 0 {
        all.lemma_filter_len(matches_query(query));
    }
    assert forall|row: EntryView| #[trigger]
        rows.contains(row) <==> all.contains(row) && (query.len() == 0 || entry_matches(
            row,
            query,
        )) by {
        lemma_filtered_rows(all, query, row);
        assert(rows.contains(row) <==> rows.to_multiset().count(row) > 0);
        assert(kept.contains(row) <==> kept.to_multiset().count(row) > 0);
    }
    assert forall|row: EntryView| #[trigger]
        tied_rows(rows, row, key) == tied_rows(kept, row, key) by {
        lemma_sort_is_stable(kept, row, key, ascending);
    }
}

/// The rows that pass the search hold each matching row as often as the
/// snapshot holds it, and no other row.
pub proof fn lemma_filtered_multiplicity(all: Seq<EntryView>, query: Seq<char>, row: EntryView)
    ensures
        filtered_entries(all, query).to_multiset().count(row) == (if query.len() == 0
            || entry_matches(row, query) {
            all.to_multiset().count(row)
        } else {
            0
        }),
    decreases all.len(),
{
    broadcast use vstd::seq_lib::group_to_multiset_ensures;

    if query.len() > 0 {
        let matching = matches_query(query);
        if all.len() == 0 {
            all.lemma_filter_len(matching);
            assert(all.filter(matching) =~= all);
            assert(all.to_multiset().len() == 0);
        } else {
            let init = all.drop_last();
            let last = all.last();
            lemma_filtered_multiplicity(init, query, row);
            assert(all =~= init.push(last));
            Seq::<EntryView>::lemma_filter_push(init, last, matching);
            assert(init.push(last).to_multiset() =~= init.to_multiset().insert(last));
            if entry_matches(last, query) {
                assert(init.filter(matching).push(last).to_multiset() =~= init.filter(
                    matching,
                ).to_multiset().insert(last));
            }
        }
    }
}

/// The visible rows hold each row that passes the search as often as the
/// snapshot holds it, and no other row: none is altered, none invented.
pub proof fn lemma_visible_multiplicity(
    all: Seq<EntryView>,
    query: Seq<char>,
    key: SortBy,
    ascending: bool,
    row: EntryView,
)
    ensures
        visible_entries(all, query, key, ascending).to_multiset().count(row) == (if query.len()
            == 0 || entry_matches(row, query) {
            all.to_multiset().count(row)
        } else {
            0
        }),
{
    lemma_sorted_is_permutation(filtered_entries(all, query), key, ascending);
    lemma_filtered_multiplicity(all, query, row);
}

/// A row matches a search text exactly when the text in lower case stands
/// in the lower-case form of its command, user or name, or the text as it
/// is stands in its process id.
pub proof fn lemma_match_in_words(row: EntryView, query: Seq<char>)
    ensures
        entry_matches(row, query) <==> is_substring(lowercase_of(query), lowercase_of(row.command))
            || is_substring(lowercase_of(query), lowercase_of(row.user)) || is_substring(
            lowercase_of(query),
            lowercase_of(row.name),
        ) || is_substring(query, row.pid),
{
}

/// The visible rows are a function of the snapshot, the search text, the
/// sort key and the direction: two computations from the same four give
/// the same rows.
pub proof fn lemma_view_is_determined(
    all: Seq<EntryView>,
    query: Seq<char>,
    key: SortBy,
    ascending: bool,
    first: Seq<EntryView>,
    second: Seq<EntryView>,
)
    requires
        first == visible_entries(all, query, key, ascending),
        second == visible_entries(all, query, key, ascending),
    ensures
        first == second,
{
}

} // verus!
