//! A listing with malformed lines: what the lines with too few fields do
//! to the snapshot.

use vstd::prelude::*;
use crate::lsof::{is_entry_line, rows_of_lines, MIN_FIELDS};
use crate::text::fields_of;

verus! {

/// A line with fewer than nine fields gives no row and disturbs no other:
/// the rows are those of the lines without it.
pub proof fn lemma_short_line_gives_no_row(
    before: Seq<Seq<char>>,
    line: Seq<char>,
    after: Seq<Seq<char>>,
)
    requires
        fields_of(line).len() < MIN_FIELDS,
    ensures
        rows_of_lines(before + seq![line] + after) == rows_of_lines(before + after),
{
    let keep = is_entry_line();
    Seq::filter_distributes_over_add(before + seq![line], after, keep);
    Seq::filter_distributes_over_add(before, seq![line], keep);
    Seq::filter_distributes_over_add(before, after, keep);
    assert(seq![line] =~= Seq::<Seq<char>>::empty().push(line));
    Seq::<Seq<char>>::lemma_filter_push(Seq::empty(), line, keep);
    Seq::<Seq<char>>::empty().lemma_filter_len(keep);
    assert(seq![line].filter(keep) =~= Seq::<Seq<char>>::empty());
    assert(before.filter(keep) + Seq::<Seq<char>>::empty() =~= before.filter(keep));
}

/// Where every line has fewer than nine fields there is no row.
pub proof fn lemma_short_lines_give_no_rows(lines: Seq<Seq<char>>)
    requires
        forall|i: int| 0 <= i < lines.len() ==> fields_of(#[trigger] lines[i]).len() < MIN_FIELDS,
    ensures
        rows_of_lines(lines).len() == 0,
    decreases lines.len(),
{
    let keep = is_entry_line();
    if lines.len() == 0 {
        lines.lemma_filter_len(keep);
    } else {
        let init = lines.drop_last();
        assert forall|i: int| 0 <= i < init.len() implies fields_of(#[trigger] init[i]).len()
            < MIN_FIELDS by {
            assert(init[i] == lines[i]);
        }
        lemma_short_lines_give_no_rows(init);
        assert(lines =~= init.push(lines.last()));
        Seq::<Seq<char>>::lemma_filter_push(init, lines.last(), keep);
    }
}

} // verus!
