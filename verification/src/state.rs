//! Selection and scroll state for a widget list.
//!
//! The state remembers which item is selected, if any, and the scroll
//! offset: the index of the first item considered when the visible window
//! is computed. The offset is persisted across frames so that scrolling
//! stays stable; the windower corrects it only as far as needed.

use vstd::prelude::*;

verus! {

/// Selection and scroll position of a widget list.
///
/// `offset` is the index of the first item considered for the visible
/// window; `selected` is the currently selected item, if any. Both may be
/// stale with respect to the item list (for example after items were
/// removed); the windower clamps them defensively instead of failing.
#[derive(Debug, Clone, Copy)]
pub struct WidgetListState {
    pub offset: usize,
    pub selected: Option<usize>,
}

impl Default for WidgetListState {
    /// A fresh state: nothing selected, scrolled to the top.
    fn default() -> (r: Self)
        ensures
            r.offset == 0,
            r.selected is None,
    {
        WidgetListState { offset: 0, selected: None }
    }
}

impl WidgetListState {
    /// The current scroll offset.
    pub fn offset(&self) -> (r: usize)
        ensures
            r == self.offset,
    {
        self.offset
    }

    /// Mutable access to the scroll offset.
    pub fn offset_mut(&mut self) -> (r: &mut usize)
        ensures
            *r == old(self).offset,
            final(self).offset == *final(r),
            final(self).selected == old(self).selected,
    {
        &mut self.offset
    }

    /// The same state with `selected` replaced.
    pub fn with_selected(self, selected: Option<usize>) -> (r: Self)
        ensures
            r.selected == selected,
            r.offset == self.offset,
    {
        WidgetListState { selected, ..self }
    }

    /// The same state with `offset` replaced.
    pub fn with_offset(self, offset: usize) -> (r: Self)
        ensures
            r.offset == offset,
            r.selected == self.selected,
    {
        WidgetListState { offset, ..self }
    }

    /// The currently selected index, if any.
    pub fn selected(&self) -> (r: Option<usize>)
        ensures
            r == self.selected,
    {
        self.selected
    }

    /// Sets the selection. Clearing the selection also resets the scroll
    /// offset to the top; selecting an item leaves the offset untouched.
    pub fn select(&mut self, index: Option<usize>)
        ensures
            final(self).selected == index,
            index is Some ==> final(self).offset == old(self).offset,
            index is None ==> final(self).offset == 0,
    {
        self.selected = index;
        if index.is_none() {
            self.offset = 0;
        }
    }
}

} // verus!
