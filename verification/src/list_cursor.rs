//! The highlight of a scrollable list: which item is selected and which item
//! the view starts at, as ratatui's `ListState` keeps them. The moves are
//! made by ratatui itself; the renderer clamps the selection to the list.

use vstd::prelude::*;

verus! {

/// Selection and scroll offset of a list.
#[derive(Clone, Copy, Debug, PartialEq, Eq, Structural)]
pub struct ListCursor {
    /// Index of the first item shown.
    pub offset: usize,
    /// Index of the highlighted item, if any.
    pub selected: Option<usize>,
}

/// The cursor after `select(index)`: the selection becomes `index`, and the
/// offset returns to 0 when nothing is selected.
pub open spec fn spec_selected_as(cursor: ListCursor, index: Option<usize>) -> ListCursor {
    ListCursor { offset: if index is None { 0 } else { cursor.offset }, selected: index }
}

/// The cursor after `select_next`: the item after the selected one (saturating), or the first.
pub open spec fn spec_next(cursor: ListCursor) -> ListCursor {
    spec_selected_as(
        cursor,
        Some(
            match cursor.selected {
                None => 0,
                Some(i) => if i == usize::MAX { i } else { (i + 1) as usize },
            },
        ),
    )
}

/// The cursor after `select_previous`: the item before the selected one
/// (saturating at 0), or `usize::MAX`, which the renderer turns into the last item.
pub open spec fn spec_previous(cursor: ListCursor) -> ListCursor {
    spec_selected_as(
        cursor,
        Some(
            match cursor.selected {
                None => usize::MAX,
                Some(i) => if i == 0 { 0 } else { (i - 1) as usize },
            },
        ),
    )
}

/// The cursor after `select_first`.
pub open spec fn spec_first(cursor: ListCursor) -> ListCursor {
    spec_selected_as(cursor, Some(0))
}

/// Calls ratatui's `ListState::default`: offset 0, nothing selected.
#[verifier::external_body]
fn list_state_default() -> (cursor: ListCursor)
    ensures
        cursor == (ListCursor { offset: 0, selected: None }),
{
    let state = ratatui::widgets::ListState::default();
    ListCursor { offset: state.offset(), selected: state.selected() }
}

/// Calls ratatui's `ListState::select_next` on a state holding `cursor`.
#[verifier::external_body]
fn list_state_select_next(cursor: ListCursor) -> (next: ListCursor)
    ensures
        next == spec_next(cursor),
{
    let mut state = ratatui::widgets::ListState::default()
        .with_offset(cursor.offset)
        .with_selected(cursor.selected);
    state.select_next();
    ListCursor { offset: state.offset(), selected: state.selected() }
}

/// Calls ratatui's `ListState::select_previous` on a state holding `cursor`.
#[verifier::external_body]
fn list_state_select_previous(cursor: ListCursor) -> (previous: ListCursor)
    ensures
        previous == spec_previous(cursor),
{
    let mut state = ratatui::widgets::ListState::default()
        .with_offset(cursor.offset)
        .with_selected(cursor.selected);
    state.select_previous();
    ListCursor { offset: state.offset(), selected: state.selected() }
}

/// Calls ratatui's `ListState::select_first` on a state holding `cursor`.
#[verifier::external_body]
fn list_state_select_first(cursor: ListCursor) -> (first: ListCursor)
    ensures
        first == spec_first(cursor),
{
    let mut state = ratatui::widgets::ListState::default()
        .with_offset(cursor.offset)
        .with_selected(cursor.selected);
    state.select_first();
    ListCursor { offset: state.offset(), selected: state.selected() }
}

impl ListCursor {
    /// A cursor with nothing selected, shown from the top.
    pub fn new() -> (cursor: ListCursor)
        ensures
            cursor == (ListCursor { offset: 0, selected: None }),
    {
        list_state_default()
    }

    /// Highlights the next item (the first when nothing is highlighted).
    pub fn select_next(&mut self)
        ensures
            *final(self) == spec_next(*old(self)),
    {
        *self = list_state_select_next(*self);
    }

    /// Highlights the previous item (the last when nothing is highlighted).
    pub fn select_previous(&mut self)
        ensures
            *final(self) == spec_previous(*old(self)),
    {
        *self = list_state_select_previous(*self);
    }

    /// Highlights the first item.
    pub fn select_first(&mut self)
        ensures
            *final(self) == spec_first(*old(self)),
    {
        *self = list_state_select_first(*self);
    }

    /// The highlighted index, if any.
    pub fn selected(&self) -> (index: Option<usize>)
        ensures
            index == self.selected,
    {
        self.selected
    }
}

} // verus!
