//! Which item of a list is selected, and where the part of it that is shown begins.

use vstd::prelude::*;

verus! {

/// The state of a list on the screen.
#[derive(Clone, Copy, PartialEq, Eq, Structural, Debug)]
pub struct ListState {
    /// The first item that is shown.
    pub offset: usize,
    /// The selected item, if any.
    pub selected: Option<usize>,
}

/// `ratatui::widgets::ListState::select`, on a state with the given fields: the index
/// becomes the selection, and the offset goes back to 0 where there is none.
#[verifier::external_body]
fn widget_select(offset: usize, selected: Option<usize>, index: Option<usize>) -> (r: (
    usize,
    Option<usize>,
))
    ensures
        r.1 == index,
        r.0 == (if index is None {
            0
        } else {
            offset
        }),
{
    let mut state = ratatui::widgets::ListState::default().with_offset(offset).with_selected(
        selected,
    );
    state.select(index);
    (state.offset(), state.selected())
}

impl ListState {
    /// The state with the selection at `index`.
    pub open spec fn selecting(self, index: usize) -> ListState {
        ListState { offset: self.offset, selected: Some(index) }
    }

    /// The selection after the one at present, in a list of `len` items: the first item
    /// follows the last, and is also what follows no selection.
    pub open spec fn following(self, len: int) -> int {
        match self.selected {
            Some(i) => if i >= len - 1 {
                0
            } else {
                i + 1
            },
            None => 0,
        }
    }

    /// The selection before the one at present, in a list of `len` items: the last item
    /// precedes the first; the first item is what precedes no selection.
    pub open spec fn preceding(self, len: int) -> int {
        match self.selected {
            Some(i) => if i == 0 {
                len - 1
            } else {
                i - 1
            },
            None => 0,
        }
    }

    /// Whether nothing is selected or an item of a list of `len` items is.
    pub open spec fn in_range(self, len: int) -> bool {
        self.selected matches Some(i) ==> i < len
    }

    /// The state of a list of which nothing is selected and which is shown from its start.
    pub fn new() -> (r: ListState)
        ensures
            r == (ListState { offset: 0, selected: None }),
    {
        ListState { offset: 0, selected: None }
    }

    /// Selects the item at `index`.
    pub fn select(&mut self, index: usize)
        ensures
            *final(self) == old(self).selecting(index),
    {
        let (offset, selected) = widget_select(self.offset, self.selected, Some(index));
        self.offset = offset;
        self.selected = selected;
    }

    /// Selects the item after the selected one; there is one where the list is not empty.
    pub fn select_following(&mut self, len: usize)
        requires
            len > 0,
        ensures
            *final(self) == old(self).selecting(old(self).following(len as int) as usize),
            old(self).following(len as int) < len,
    {
        let i: usize = match self.selected {
            Some(i) => if i >= len - 1 {
                0
            } else {
                i + 1
            },
            None => 0,
        };
        self.select(i);
    }

    /// Selects the item before the selected one; there is one where the list is not empty.
    pub fn select_preceding(&mut self, len: usize)
        requires
            len > 0,
        ensures
            *final(self) == old(self).selecting(old(self).preceding(len as int) as usize),
            0 <= old(self).preceding(len as int) <= usize::MAX,
    {
        let i: usize = match self.selected {
            Some(i) => if i == 0 {
                len - 1
            } else {
                i - 1
            },
            None => 0,
        };
        self.select(i);
    }
}

} // verus!
