//! The list widget's state, which the state machines keep for the renderer:
//! which row is highlighted.
//!
//! The state is `ratatui`'s own. What its operations do is stated here and
//! believed, not proved.

use ratatui::widgets::ListState;
use vstd::prelude::*;

verus! {

#[verifier::external_type_specification]
#[verifier::external_body]
pub struct ExListState(ListState);

/// The row that a list widget's state highlights, as `ListState::selected`
/// reports it.
pub uninterp spec fn selected_row(state: ListState) -> Option<usize>;

/// `ListState::default` highlights no row.
pub assume_specification[ <ListState as Default>::default ]() -> (state: ListState)
    ensures
        selected_row(state) is None,
;

/// `ListState::select` highlights the given row, or none.
pub assume_specification[ ListState::select ](state: &mut ListState, index: Option<usize>)
    ensures
        selected_row(*final(state)) == index,
;

/// `ListState::selected` reports the highlighted row.
pub assume_specification[ ListState::selected ](state: &ListState) -> (row: Option<usize>)
    ensures
        row == selected_row(*state),
;

/// A widget state that highlights the given row.
pub fn list_state_with(index: Option<usize>) -> (state: ListState)
    ensures
        selected_row(state) == index,
{
    let mut state = ListState::default();
    state.select(index);
    state
}

} // verus!
