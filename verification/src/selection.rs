//! The state of the list widget, which the application keeps for the
//! drawing: ratatui's `ListState`. Of what it holds the state machine sets
//! the selected row; the scroll offset is the widget's own.

use vstd::prelude::*;
use ratatui::widgets::ListState;

verus! {

/// ratatui's `ListState`, carried through as it is.
#[verifier::external_type_specification]
#[verifier::external_body]
pub struct ExListState(ListState);

/// The index of the row that a list state has selected; `None` where it
/// has selected none.
pub uninterp spec fn selection_of(state: ListState) -> Option<usize>;

/// `ListState::default` gives a state that has selected no row.
pub assume_specification[ <ListState as Default>::default ]() -> (state: ListState)
    ensures
        selection_of(state) is None,
;

/// `ListState::select` makes `index` the selection. (It also puts the
/// scroll offset back to 0 where `index` is `None`; of the offset nothing
/// is stated here.)
pub assume_specification[ ListState::select ](state: &mut ListState, index: Option<usize>)
    ensures
        selection_of(*final(state)) == index,
;

/// A selection as a mathematical value.
pub open spec fn selection_view(index: Option<usize>) -> Option<nat> {
    match index {
        Some(i) => Some(i as nat),
        None => None,
    }
}

} // verus!
