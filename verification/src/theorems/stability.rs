//! The sort is stable, and a stable sort has one result: rows that tie
//! keep the order they came in, and two sequences in order that agree on
//! the rows of every tie are the same sequence.

use vstd::prelude::*;
use crate::entry::EntryView;
use crate::order::{
    comes_before,
    lemma_order_is_strict_weak,
    lemma_rank_is_strict_weak_order,
    ties,
    SortBy,
};
use crate::sorting::{
    insertion_point,
    is_ordered,
    lemma_insertion_point_bounds,
    lemma_sorted_is_ordered,
    lemma_sorted_len,
    sorted_entries,
};

verus! {

/// The rows of `s` that tie with `x` under `key`, in the order of `s`.
pub open spec fn tied_rows(s: Seq<EntryView>, x: EntryView, key: SortBy) -> Seq<EntryView>
    decreases s.len(),
{
    if s.len() == 0 {
        Seq::empty()
    } else if ties(key, x, s.last()) {
        tied_rows(s.drop_last(), x, key).push(s.last())
    } else {
        tied_rows(s.drop_last(), x, key)
    }
}

/// The tied rows of two sequences joined are the tied rows of the one,
/// then those of the other.
pub proof fn lemma_tied_rows_of_sum(a: Seq<EntryView>, b: Seq<EntryView>, x: EntryView, key: SortBy)
    ensures
        tied_rows(a + b, x, key) == tied_rows(a, x, key) + tied_rows(b, x, key),
    decreases b.len(),
{
    if b.len() == 0 {
        assert(a + b =~= a);
        assert(tied_rows(a, x, key) + Seq::<EntryView>::empty() =~= tied_rows(a, x, key));
    } else {
        assert((a + b).drop_last() =~= a + b.drop_last());
        assert((a + b).last() == b.last());
        lemma_tied_rows_of_sum(a, b.drop_last(), x, key);
        assert(tied_rows(a, x, key) + tied_rows(b.drop_last(), x, key).push(b.last())
            =~= (tied_rows(a, x, key) + tied_rows(b.drop_last(), x, key)).push(b.last()));
    }
}

/// Where no row ties there is no tied row.
pub proof fn lemma_no_tie_no_tied_rows(s: Seq<EntryView>, x: EntryView, key: SortBy)
    requires
        forall|i: int| 0 <= i < s.len() ==> !ties(key, x, #[trigger] s[i]),
    ensures
        tied_rows(s, x, key).len() == 0,
    decreases s.len(),
{
    if s.len() > 0 {
        let init = s.drop_last();
        assert forall|i: int| 0 <= i < init.len() implies !ties(key, x, #[trigger] init[i]) by {
            assert(init[i] == s[i]);
        }
        assert(!ties(key, x, s[s.len() - 1]));
        lemma_no_tie_no_tied_rows(init, x, key);
    }
}

/// The tied rows of a sequence read backwards are its tied rows read
/// backwards.
pub proof fn lemma_tied_rows_of_reverse(s: Seq<EntryView>, x: EntryView, key: SortBy)
    ensures
        tied_rows(s.reverse(), x, key) == tied_rows(s, x, key).reverse(),
    decreases s.len(),
{
    if s.len() == 0 {
        assert(s.reverse() =~= s);
        assert(tied_rows(s, x, key).reverse() =~= tied_rows(s, x, key));
    } else {
        let init = s.drop_last();
        let y = s.last();
        lemma_tied_rows_of_reverse(init, x, key);
        assert(s.reverse() =~= seq![y] + init.reverse());
        lemma_tied_rows_of_sum(seq![y], init.reverse(), x, key);
        assert(seq![y].drop_last() =~= Seq::<EntryView>::empty());
        assert(seq![y].last() == y);
        assert(tied_rows(seq![y].drop_last(), x, key) =~= Seq::<EntryView>::empty());
        let tied = tied_rows(init, x, key);
        if ties(key, x, y) {
            assert(tied_rows(seq![y], x, key) =~= seq![y]);
            assert(tied.push(y).reverse() =~= seq![y] + tied.reverse());
        } else {
            assert(tied_rows(seq![y], x, key) =~= Seq::<EntryView>::empty());
            assert(Seq::<EntryView>::empty() + tied.reverse() =~= tied.reverse());
        }
    }
}

/// The sort is stable: the rows that tie with any one row stand in the
/// sorted sequence in the order they have in the unsorted one.
pub proof fn lemma_sort_is_stable(s: Seq<EntryView>, x: EntryView, key: SortBy, ascending: bool)
    ensures
        tied_rows(sorted_entries(s, key, ascending), x, key) == tied_rows(s, x, key),
    decreases s.len(),
{
    if s.len() > 0 {
        let t = s.drop_last();
        let y = s.last();
        let sorted = sorted_entries(t, key, ascending);
        let p = insertion_point(sorted, y, key, ascending) as int;
        lemma_sort_is_stable(t, x, key, ascending);
        lemma_sorted_is_ordered(t, key, ascending);
        lemma_insertion_point_bounds(sorted, y, key, ascending);
        let front = sorted.take(p);
        let back = sorted.skip(p);
        assert(sorted =~= front + back);
        assert(sorted.insert(p, y) =~= front.push(y) + back);
        lemma_tied_rows_of_sum(front, back, x, key);
        lemma_tied_rows_of_sum(front.push(y), back, x, key);
        assert(front.push(y).drop_last() =~= front);
        if ties(key, x, y) {
            assert forall|i: int| 0 <= i < back.len() implies !ties(key, x, #[trigger] back[i]) by {
                let j = p + i;
                assert(back[i] == sorted[j]);
                if j > p {
                    assert(!comes_before(key, ascending, sorted[j], sorted[p]));
                    lemma_order_is_strict_weak(key, ascending, y, sorted[p], sorted[j]);
                }
                assert(comes_before(key, ascending, y, sorted[j]));
                lemma_rank_is_strict_weak_order(key, y, x, sorted[j]);
                lemma_rank_is_strict_weak_order(key, sorted[j], x, y);
            }
            lemma_no_tie_no_tied_rows(back, x, key);
            let tied = tied_rows(front, x, key);
            assert(tied_rows(back, x, key) =~= Seq::<EntryView>::empty());
            assert(tied + Seq::<EntryView>::empty() =~= tied);
            assert(tied.push(y) + Seq::<EntryView>::empty() =~= tied.push(y));
        }
    }
}

/// Two sequences in order that hold the same rows of every tie, in the
/// same order, are one sequence.
pub proof fn lemma_stable_order_is_unique(
    a: Seq<EntryView>,
    b: Seq<EntryView>,
    key: SortBy,
    ascending: bool,
)
    requires
        is_ordered(a, key, ascending),
        is_ordered(b, key, ascending),
        a.len() == b.len(),
        forall|x: EntryView| #[trigger] tied_rows(a, x, key) == tied_rows(b, x, key),
    ensures
        a == b,
    decreases a.len(),
{
    if a.len() == 0 {
        assert(a =~= b);
    } else {
        let x = a.last();
        let y = b.last();
        let a0 = a.drop_last();
        let b0 = b.drop_last();
        lemma_rank_is_strict_weak_order(key, x, x, x);
        lemma_rank_is_strict_weak_order(key, y, y, y);
        // Some row of `b` ties with the last of `a`, and the last of `b`
        // does not come before it.
        assert(tied_rows(a, x, key) == tied_rows(b, x, key));
        assert(tied_rows(a, x, key).len() > 0);
        if forall|j: int| 0 <= j < b.len() ==> !ties(key, x, #[trigger] b[j]) {
            lemma_no_tie_no_tied_rows(b, x, key);
        }
        let j = choose|j: int| 0 <= j < b.len() && ties(key, x, #[trigger] b[j]);
        if j < b.len() - 1 {
            assert(!comes_before(key, ascending, b[b.len() - 1], b[j]));
        }
        // And the other way round.
        assert(tied_rows(a, y, key) == tied_rows(b, y, key));
        assert(tied_rows(b, y, key).len() > 0);
        if forall|i: int| 0 <= i < a.len() ==> !ties(key, y, #[trigger] a[i]) {
            lemma_no_tie_no_tied_rows(a, y, key);
        }
        let i = choose|i: int| 0 <= i < a.len() && ties(key, y, #[trigger] a[i]);
        if i < a.len() - 1 {
            assert(!comes_before(key, ascending, a[a.len() - 1], a[i]));
        }
        lemma_rank_is_strict_weak_order(key, y, x, b[j]);
        lemma_rank_is_strict_weak_order(key, b[j], x, y);
        lemma_rank_is_strict_weak_order(key, x, y, a[i]);
        lemma_rank_is_strict_weak_order(key, a[i], y, x);
        assert(ties(key, x, y));
        assert(tied_rows(a, x, key).last() == x);
        assert(tied_rows(b, x, key).last() == y);
        assert(x == y);
        // The rest agrees on every tie as well.
        assert forall|z: EntryView| #[trigger]
            tied_rows(a0, z, key) == tied_rows(b0, z, key) by {
            assert(tied_rows(a, z, key) == tied_rows(b, z, key));
            if ties(key, z, x) {
                assert(tied_rows(a, z, key).drop_last() =~= tied_rows(a0, z, key));
                assert(tied_rows(b, z, key).drop_last() =~= tied_rows(b0, z, key));
            }
        }
        assert forall|i: int, j: int| 0 <= i < j < a0.len() implies !comes_before(
            key,
            ascending,
            #[trigger] a0[j],
            #[trigger] a0[i],
        ) by {
            assert(a0[i] == a[i] && a0[j] == a[j]);
        }
        assert forall|i: int, j: int| 0 <= i < j < b0.len() implies !comes_before(
            key,
            ascending,
            #[trigger] b0[j],
            #[trigger] b0[i],
        ) by {
            assert(b0[i] == b[i] && b0[j] == b[j]);
        }
        lemma_stable_order_is_unique(a0, b0, key, ascending);
        assert(a =~= a0.push(x));
        assert(b =~= b0.push(y));
    }
}

/// Whatever goes into the sort, the rows in descending order are the rows
/// that the snapshot read backwards gives in ascending order, read
/// backwards: the order of the keys is turned round, and within a tie the
/// order of the snapshot stays.
pub proof fn lemma_descending_in_general(s: Seq<EntryView>, key: SortBy)
    ensures
        sorted_entries(s, key, false) == sorted_entries(s.reverse(), key, true).reverse(),
{
    let down = sorted_entries(s, key, false);
    let up = sorted_entries(s.reverse(), key, true);
    let back = up.reverse();
    lemma_sorted_is_ordered(s, key, false);
    lemma_sorted_is_ordered(s.reverse(), key, true);
    lemma_sorted_len(s, key, false);
    lemma_sorted_len(s.reverse(), key, true);
    assert forall|i: int, j: int| 0 <= i < j < back.len() implies !comes_before(
        key,
        false,
        #[trigger] back[j],
        #[trigger] back[i],
    ) by {
        let n = up.len() as int;
        assert(back[i] == up[n - 1 - i]);
        assert(back[j] == up[n - 1 - j]);
        assert(!comes_before(key, true, up[n - 1 - i], up[n - 1 - j]));
    }
    assert forall|x: EntryView| #[trigger] tied_rows(down, x, key) == tied_rows(back, x, key) by {
        lemma_sort_is_stable(s, x, key, false);
        lemma_sort_is_stable(s.reverse(), x, key, true);
        lemma_tied_rows_of_reverse(up, x, key);
        lemma_tied_rows_of_reverse(s, x, key);
        assert(tied_rows(s, x, key).reverse().reverse() =~= tied_rows(s, x, key));
    }
    lemma_stable_order_is_unique(down, back, key, false);
}

} // verus!
