//! Ordering rows by a key: a stable sort by insertion, and what holds of
//! its result.

use vstd::prelude::*;
use crate::entry::{EntryView, LsofEntry};
use crate::order::{comes_before, is_before, lemma_order_is_strict_weak, SortBy};

verus! {

/// Where `x` goes into `s`: behind the rows at the start of `s` that `x`
/// does not come before.
pub open spec fn insertion_point(s: Seq<EntryView>, x: EntryView, key: SortBy, ascending: bool)
    -> nat
    decreases s.len(),
{
    if s.len() > 0 && !comes_before(key, ascending, x, s[0]) {
        1 + insertion_point(s.skip(1), x, key, ascending)
    } else {
        0
    }
}

/// The rows of `s` in the order of `key`: each row of `s` in turn is put
/// behind the rows that it does not come before, so rows that tie keep the
/// order they have in `s`.
pub open spec fn sorted_entries(s: Seq<EntryView>, key: SortBy, ascending: bool) -> Seq<EntryView>
    decreases s.len(),
{
    if s.len() == 0 {
        s
    } else {
        let init = sorted_entries(s.drop_last(), key, ascending);
        init.insert(insertion_point(init, s.last(), key, ascending) as int, s.last())
    }
}

/// Whether no row of `s` comes before a row that stands earlier in `s`.
pub open spec fn is_ordered(s: Seq<EntryView>, key: SortBy, ascending: bool) -> bool {
    forall|i: int, j: int|
        0 <= i < j < s.len() ==> !comes_before(key, ascending, #[trigger] s[j], #[trigger] s[i])
}

/// The insertion point is the one index `n` such that `x` comes before
/// none of the first `n` rows and before the next one, if there is one.
pub proof fn lemma_insertion_point_is(
    s: Seq<EntryView>,
    x: EntryView,
    key: SortBy,
    ascending: bool,
    n: nat,
)
    requires
        n <= s.len(),
        forall|i: int| 0 <= i < n ==> !comes_before(key, ascending, x, #[trigger] s[i]),
        n < s.len() ==> comes_before(key, ascending, x, s[n as int]),
    ensures
        insertion_point(s, x, key, ascending) == n,
    decreases n,
{
    if n > 0 {
        let t = s.skip(1);
        assert(!comes_before(key, ascending, x, s[0]));
        assert forall|i: int| 0 <= i < n - 1 implies !comes_before(
            key,
            ascending,
            x,
            #[trigger] t[i],
        ) by {
            assert(t[i] == s[i + 1]);
        }
        lemma_insertion_point_is(t, x, key, ascending, (n - 1) as nat);
    }
}

/// The insertion point lies in the sequence; `x` comes before none of the
/// rows in front of it and before the row at it.
pub proof fn lemma_insertion_point_bounds(
    s: Seq<EntryView>,
    x: EntryView,
    key: SortBy,
    ascending: bool,
)
    ensures
        insertion_point(s, x, key, ascending) <= s.len(),
        forall|i: int|
            0 <= i < insertion_point(s, x, key, ascending) ==> !comes_before(
                key,
                ascending,
                x,
                #[trigger] s[i],
            ),
        insertion_point(s, x, key, ascending) < s.len() ==> comes_before(
            key,
            ascending,
            x,
            s[insertion_point(s, x, key, ascending) as int],
        ),
    decreases s.len(),
{
    if s.len() > 0 && !comes_before(key, ascending, x, s[0]) {
        let t = s.skip(1);
        lemma_insertion_point_bounds(t, x, key, ascending);
        let p = insertion_point(s, x, key, ascending);
        assert forall|i: int| 0 <= i < p implies !comes_before(key, ascending, x, #[trigger] s[i]) by {
            if i > 0 {
                assert(s[i] == t[i - 1]);
            }
        }
        if p < s.len() {
            assert(s[p as int] == t[p - 1]);
        }
    }
}

/// Sorting keeps the number of rows.
pub proof fn lemma_sorted_len(s: Seq<EntryView>, key: SortBy, ascending: bool)
    ensures
        sorted_entries(s, key, ascending).len() == s.len(),
    decreases s.len(),
{
    if s.len() > 0 {
        let init = sorted_entries(s.drop_last(), key, ascending);
        lemma_sorted_len(s.drop_last(), key, ascending);
        lemma_insertion_point_bounds(init, s.last(), key, ascending);
    }
}

/// The sorted rows are in order.
pub proof fn lemma_sorted_is_ordered(s: Seq<EntryView>, key: SortBy, ascending: bool)
    ensures
        is_ordered(sorted_entries(s, key, ascending), key, ascending),
    decreases s.len(),
{
    if s.len() > 0 {
        let init = sorted_entries(s.drop_last(), key, ascending);
        let x = s.last();
        let p = insertion_point(init, x, key, ascending) as int;
        let r = sorted_entries(s, key, ascending);
        lemma_sorted_is_ordered(s.drop_last(), key, ascending);
        lemma_insertion_point_bounds(init, x, key, ascending);
        assert(r == init.insert(p, x));
        assert forall|i: int, j: int| 0 <= i < j < r.len() implies !comes_before(
            key,
            ascending,
            #[trigger] r[j],
            #[trigger] r[i],
        ) by {
            if j == p {
                assert(r[i] == init[i]);
            } else if i == p {
                assert(r[j] == init[j - 1]);
                if j - 1 > p {
                    assert(!comes_before(key, ascending, init[j - 1], init[p]));
                }
                lemma_order_is_strict_weak(key, ascending, r[j], x, init[p]);
            } else {
                let i0 = if i < p {
                    i
                } else {
                    i - 1
                };
                let j0 = if j < p {
                    j
                } else {
                    j - 1
                };
                assert(r[i] == init[i0]);
                assert(r[j] == init[j0]);
            }
        }
    }
}

/// The sorted rows are the rows of `s`, each as often as `s` has it.
pub proof fn lemma_sorted_is_permutation(s: Seq<EntryView>, key: SortBy, ascending: bool)
    ensures
        sorted_entries(s, key, ascending).to_multiset() == s.to_multiset(),
    decreases s.len(),
{
    broadcast use vstd::seq_lib::group_to_multiset_ensures;

    if s.len() > 0 {
        let init = sorted_entries(s.drop_last(), key, ascending);
        let x = s.last();
        lemma_sorted_is_permutation(s.drop_last(), key, ascending);
        lemma_insertion_point_bounds(init, x, key, ascending);
        assert(s == s.drop_last().push(x));
    }
}

/// Puts `entry` into `rows` at its insertion point.
pub fn insert_sorted(rows: &mut Vec<LsofEntry>, entry: LsofEntry, key: SortBy, ascending: bool)
    ensures
        final(rows).deep_view() == old(rows).deep_view().insert(
            insertion_point(old(rows).deep_view(), entry@, key, ascending) as int,
            entry@,
        ),
{
    let ghost before = rows.deep_view();
    let mut p: usize = 0;
    while p < rows.len() && !is_before(key, ascending, &entry, &rows[p])
        invariant
            p <= rows.len(),
            before == rows.deep_view(),
            forall|i: int| 0 <= i < p ==> !comes_before(key, ascending, entry@, #[trigger] before[i]),
        decreases rows.len() - p,
    {
        p += 1;
    }
    proof {
        lemma_insertion_point_is(before, entry@, key, ascending, p as nat);
    }
    rows.insert(p, entry);
    assert(rows.deep_view() =~= before.insert(p as int, entry@));
}

} // verus!
