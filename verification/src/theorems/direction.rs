//! Turning the sort direction round: when the descending order is the
//! ascending order read backwards.

use vstd::prelude::*;
use crate::entry::EntryView;
use crate::model::AppView;
use crate::order::{comes_before, lemma_order_is_strict_weak, ranks_before, ties, SortBy};
use crate::sorting::{
    insertion_point,
    is_ordered,
    lemma_insertion_point_bounds,
    lemma_sorted_is_ordered,
    lemma_sorted_is_permutation,
    sorted_entries,
};
use crate::theorems::stability::lemma_descending_in_general;
use crate::visible::{filtered_entries, visible_entries};

verus! {

/// Whether no two different rows of `s` tie under `key`.
pub open spec fn ties_are_equal(s: Seq<EntryView>, key: SortBy) -> bool {
    forall|i: int, j: int|
        0 <= i < s.len() && 0 <= j < s.len() && ties(key, #[trigger] s[i], #[trigger] s[j])
            ==> s[i] == s[j]
}

/// Putting a row into an ascending sequence and reading the result
/// backwards gives what putting it into the sequence read backwards gives,
/// in descending order, if the row ties with none but its equals.
proof fn lemma_insert_reversed(s: Seq<EntryView>, x: EntryView, key: SortBy)
    requires
        is_ordered(s, key, true),
        forall|i: int| 0 <= i < s.len() && ties(key, x, #[trigger] s[i]) ==> s[i] == x,
    ensures
        s.reverse().insert(insertion_point(s.reverse(), x, key, false) as int, x) == s.insert(
            insertion_point(s, x, key, true) as int,
            x,
        ).reverse(),
{
    let n = s.len() as int;
    let r = s.reverse();
    let pa = insertion_point(s, x, key, true) as int;
    let pd = insertion_point(r, x, key, false) as int;
    lemma_insertion_point_bounds(s, x, key, true);
    lemma_insertion_point_bounds(r, x, key, false);
    assert forall|j: int| pa <= j < n implies ranks_before(key, x, #[trigger] s[j]) by {
        if j > pa {
            assert(!comes_before(key, true, s[j], s[pa]));
            lemma_order_is_strict_weak(key, true, x, s[pa], s[j]);
        }
    }
    assert(pd >= n - pa) by {
        if pd < n - pa {
            assert(r[pd] == s[n - 1 - pd]);
            assert(ranks_before(key, x, s[n - 1 - pd]));
            lemma_order_is_strict_weak(key, true, x, r[pd], x);
        }
    }
    assert forall|i: int| n - pa <= i < pd implies #[trigger] r[i] == x by {
        assert(r[i] == s[n - 1 - i]);
        assert(!comes_before(key, true, x, s[n - 1 - i]));
        assert(!comes_before(key, false, x, r[i]));
        assert(ties(key, x, s[n - 1 - i]));
    }
    let left = r.insert(pd, x);
    let right = s.insert(pa, x).reverse();
    assert(left.len() == right.len());
    assert forall|k: int| 0 <= k < left.len() implies left[k] == right[k] by {
        let m = n - k;
        assert(right[k] == s.insert(pa, x)[m]);
        if m > pa {
            assert(right[k] == s[m - 1]);
            assert(r[k] == s[n - 1 - k]);
        } else if m == pa {
            assert(right[k] == x);
            if k < pd {
                assert(r[k] == x);
            }
        } else {
            assert(right[k] == s[m]);
            assert(r[k - 1] == s[n - k]);
            if k <= pd {
                assert(r[k - 1] == x);
                if k < pd {
                    assert(r[k] == x);
                }
            }
        }
    }
    assert(left =~= right);
}

/// Where no two different rows tie, the rows in descending order are the
/// rows in ascending order read backwards.
pub proof fn lemma_descending_is_ascending_reversed(s: Seq<EntryView>, key: SortBy)
    requires
        ties_are_equal(s, key),
    ensures
        sorted_entries(s, key, false) == sorted_entries(s, key, true).reverse(),
    decreases s.len(),
{
    broadcast use vstd::seq_lib::group_to_multiset_ensures;

    if s.len() == 0 {
        assert(s.reverse() =~= s);
    } else {
        let t = s.drop_last();
        let x = s.last();
        assert forall|i: int, j: int|
            0 <= i < t.len() && 0 <= j < t.len() && ties(
                key,
                #[trigger] t[i],
                #[trigger] t[j],
            ) implies t[i] == t[j] by {
            assert(t[i] == s[i]);
            assert(t[j] == s[j]);
        }
        lemma_descending_is_ascending_reversed(t, key);
        let up = sorted_entries(t, key, true);
        lemma_sorted_is_ordered(t, key, true);
        lemma_sorted_is_permutation(t, key, true);
        assert forall|i: int| 0 <= i < up.len() && ties(key, x, #[trigger] up[i]) implies up[i]
            == x by {
            assert(up.contains(up[i]));
            assert(up.to_multiset().count(up[i]) > 0);
            assert(t.to_multiset().count(up[i]) > 0);
            assert(t.contains(up[i]));
            let j = choose|j: int| 0 <= j < t.len() && t[j] == up[i];
            assert(s[j] == up[i]);
            assert(s[s.len() - 1] == x);
        }
        lemma_insert_reversed(up, x, key);
    }
}

/// Reading a sequence backwards twice gives the sequence.
proof fn lemma_reverse_twice(s: Seq<EntryView>)
    ensures
        s.reverse().reverse() == s,
{
    assert(s.reverse().reverse() =~= s);
}

/// Turning the direction round with the same sort key reverses the
/// visible rows exactly, where no two different rows among them tie under
/// the key. This holds of every key; for the start time, known starts
/// stand before unknown ones ascending and behind them descending.
///
/// Rows that tie keep the order of the snapshot in both directions, so
/// with two different rows that tie the one view is not the other
/// reversed.
pub proof fn lemma_direction_reverses_view(all: Seq<EntryView>, query: Seq<char>, key: SortBy)
    requires
        ties_are_equal(filtered_entries(all, query), key),
    ensures
        visible_entries(all, query, key, false) == visible_entries(all, query, key, true).reverse(),
        visible_entries(all, query, key, true) == visible_entries(all, query, key, false).reverse(),
{
    lemma_descending_is_ascending_reversed(filtered_entries(all, query), key);
    lemma_reverse_twice(visible_entries(all, query, key, true));
}

/// When exactly the descending view is the ascending view reversed: when
/// the rows that pass the search give the same ascending order read
/// forwards and read backwards, which is to say that within every tie the
/// rows read the same in both directions.
pub proof fn lemma_direction_reverses_exactly_when(
    all: Seq<EntryView>,
    query: Seq<char>,
    key: SortBy,
)
    ensures
        visible_entries(all, query, key, false) == visible_entries(all, query, key, true).reverse()
            <==> sorted_entries(filtered_entries(all, query).reverse(), key, true)
            == sorted_entries(filtered_entries(all, query), key, true),
{
    let kept = filtered_entries(all, query);
    let up = sorted_entries(kept, key, true);
    let backwards_up = sorted_entries(kept.reverse(), key, true);
    lemma_descending_in_general(kept, key);
    lemma_reverse_twice(up);
    lemma_reverse_twice(backwards_up);
}

/// Choosing the current sort key again reverses the visible rows, where
/// no two different rows among them tie under the key.
pub proof fn lemma_same_key_reverses_rows(s: AppView)
    requires
        s.wf(),
        ties_are_equal(filtered_entries(s.processes, s.search_query), s.sort_by),
    ensures
        s.set_sort(s.sort_by).filtered_processes == s.filtered_processes.reverse(),
        s.set_sort(s.sort_by).sort_ascending == !s.sort_ascending,
        s.set_sort(s.sort_by).sort_by == s.sort_by,
{
    lemma_direction_reverses_view(s.processes, s.search_query, s.sort_by);
}

/// In the descending order, of two rows with a known and an unknown start
/// time the unknown one stands first; in the ascending order, the known.
pub proof fn lemma_unknown_start_changes_ends(
    s: Seq<EntryView>,
    ascending: bool,
    i: int,
    j: int,
)
    requires
        0 <= i < j < s.len(),
    ensures
        ({
            let rows = sorted_entries(s, SortBy::StartTime, ascending);
            ascending ==> !(rows[i].start_time is None && rows[j].start_time is Some)
        }),
        ({
            let rows = sorted_entries(s, SortBy::StartTime, ascending);
            !ascending ==> !(rows[i].start_time is Some && rows[j].start_time is None)
        }),
{
    lemma_sorted_is_ordered(s, SortBy::StartTime, ascending);
    crate::sorting::lemma_sorted_len(s, SortBy::StartTime, ascending);
    let rows = sorted_entries(s, SortBy::StartTime, ascending);
    assert(!comes_before(SortBy::StartTime, ascending, rows[j], rows[i]));
}

} // verus!
