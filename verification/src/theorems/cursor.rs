//! The cursor goes round the visible rows.

use vstd::prelude::*;
use vstd::arithmetic::div_mod::{lemma_add_mod_noop, lemma_mod_self_0, lemma_small_mod};
use crate::model::AppView;

verus! {

/// The state after `n` steps of the cursor down the list.
pub open spec fn select_next_times(s: AppView, n: nat) -> AppView
    decreases n,
{
    if n == 0 {
        s
    } else {
        select_next_times(s, (n - 1) as nat).select_next()
    }
}

/// `n` steps down a list of `len` rows move the cursor by `n`, counted
/// round the list, and the selection of the list widget with it, and
/// change nothing else.
pub proof fn lemma_select_next_times(s: AppView, n: nat)
    requires
        s.selected_index < s.filtered_processes.len(),
        s.list_selected == Some(s.selected_index),
    ensures
        select_next_times(s, n) == (AppView {
            selected_index: ((s.selected_index + n) as int % (s.filtered_processes.len() as int))
                as nat,
            list_selected: Some(
                ((s.selected_index + n) as int % (s.filtered_processes.len() as int)) as nat,
            ),
            ..s
        }),
    decreases n,
{
    let len = s.filtered_processes.len() as int;
    let i = s.selected_index as int;
    if n == 0 {
        lemma_small_mod(i as nat, len as nat);
    } else {
        lemma_select_next_times(s, (n - 1) as nat);
        let at = (i + n - 1) % len;
        assert(0 <= at < len) by (nonlinear_arith)
            requires
                at == (i + n - 1) % len,
                len > 0,
        ;
        lemma_add_mod_noop(i + n - 1, 1, len);
        if at + 1 < len {
            lemma_small_mod((at + 1) as nat, len as nat);
            if len > 1 {
                lemma_small_mod(1, len as nat);
            }
        } else {
            lemma_mod_self_0(len);
            if len > 1 {
                lemma_small_mod(1, len as nat);
            } else {
                lemma_small_mod(0, len as nat);
            }
        }
    }
}

/// With a row visible, as many steps down as there are rows bring the
/// cursor back to where it was, and the state with it.
pub proof fn lemma_select_next_wraps_around(s: AppView)
    requires
        s.wf(),
        s.filtered_processes.len() > 0,
    ensures
        select_next_times(s, s.filtered_processes.len()) == s,
        select_next_times(s, s.filtered_processes.len()).selected_index == s.selected_index,
{
    let len = s.filtered_processes.len();
    lemma_select_next_times(s, len);
    lemma_add_mod_noop(s.selected_index as int, len as int, len as int);
    lemma_mod_self_0(len as int);
    lemma_small_mod(s.selected_index, len);
}

/// One step up undoes one step down, and one step down one step up.
pub proof fn lemma_select_previous_undoes_next(s: AppView)
    requires
        s.wf(),
    ensures
        s.select_next().select_previous() == s,
        s.select_previous().select_next() == s,
{
}

} // verus!
