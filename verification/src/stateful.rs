//! Stateful navigation over a list of items.
//!
//! [`StatefulWidgetList`] pairs a list of items with a [`WidgetListState`]
//! and a memory of the last selection. Navigation wraps around at both
//! ends, and clearing the selection remembers where the user was, so that
//! the next step resumes near the last position instead of at the top.

use vstd::prelude::*;

use crate::state::WidgetListState;

verus! {

/// The index that a forward step selects.
///
/// From `Some(i)` the step moves to `i + 1`, wrapping to `0` at (or past)
/// the last index. From `None` it resumes at the remembered last
/// selection, or at `0` when there is none.
pub open spec fn advance_target(
    selected: Option<usize>,
    last_selected: Option<usize>,
    n: usize,
) -> usize {
    match selected {
        Some(i) => if i + 1 >= n {
            0usize
        } else {
            (i + 1) as usize
        },
        None => match last_selected {
            Some(l) => l,
            None => 0usize,
        },
    }
}

/// The index that a backward step selects.
///
/// From `Some(i)` the step moves to `i - 1`, wrapping to `n - 1` at index
/// `0`. From `None` it resumes at the remembered last selection, or at
/// `0` when there is none.
pub open spec fn retreat_target(
    selected: Option<usize>,
    last_selected: Option<usize>,
    n: usize,
) -> usize {
    match selected {
        Some(i) => if i == 0 {
            (n - 1) as usize
        } else {
            (i - 1) as usize
        },
        None => match last_selected {
            Some(l) => l,
            None => 0usize,
        },
    }
}

/// Law: navigation wraps around. A forward step from the last index
/// selects index `0`, and a backward step from index `0` selects the last
/// index, whatever the remembered last selection is.
pub proof fn lemma_wrap_around(last_selected: Option<usize>, n: usize)
    requires
        n > 0,
    ensures
        advance_target(Some((n - 1) as usize), last_selected, n) == 0,
        retreat_target(Some(0usize), last_selected, n) == n - 1,
{
}

/// Law: navigation resumes near the last position. A step taken while
/// nothing is selected goes back to the remembered index, in either
/// direction, for every remembered index.
pub proof fn lemma_resume_at_last(i: usize, n: usize)
    ensures
        advance_target(None, Some(i), n) == i,
        retreat_target(None, Some(i), n) == i,
{
}

/// A list of items together with selection and scroll state.
///
/// `last_selected` remembers the most recent selection across
/// [`unselect`](Self::unselect), so that a later navigation step resumes
/// near where the user left off rather than restarting at the top.
#[derive(Debug)]
pub struct StatefulWidgetList<T> {
    pub state: WidgetListState,
    pub items: Vec<T>,
    pub last_selected: Option<usize>,
}

impl<T> Default for StatefulWidgetList<T> {
    /// An empty list: no items, nothing selected, nothing remembered.
    fn default() -> (r: Self)
        ensures
            r.state.offset == 0,
            r.state.selected is None,
            r.items@.len() == 0,
            r.last_selected is None,
    {
        StatefulWidgetList { state: WidgetListState::default(), items: Vec::new(), last_selected: None }
    }
}

impl<T> StatefulWidgetList<T> {
    /// A list over the given items, with a fresh state.
    pub fn with_items(items: Vec<T>) -> (r: StatefulWidgetList<T>)
        ensures
            r.state.offset == 0,
            r.state.selected is None,
            r.items == items,
            r.last_selected is None,
    {
        StatefulWidgetList { state: WidgetListState::default(), items, last_selected: None }
    }

    /// Moves the selection one step forward, wrapping around at the end.
    /// On an empty list this is a no-op. The scroll offset is untouched.
    pub fn next(&mut self)
        ensures
            final(self).items == old(self).items,
            final(self).last_selected == old(self).last_selected,
            old(self).items@.len() == 0 ==> final(self).state == old(self).state,
            old(self).items@.len() > 0 ==> final(self).state.selected == Some(
                advance_target(old(self).state.selected, old(self).last_selected, old(self).items.len()),
            ),
            old(self).items@.len() > 0 ==> final(self).state.offset == old(self).state.offset,
    {
        if self.items.len() == 0 {
            return;
        }
        let i: usize = match self.state.selected {
            Some(i) => {
                if i >= self.items.len() - 1 {
                    0
                } else {
                    i + 1
                }
            },
            None => match self.last_selected {
                Some(l) => l,
                None => 0,
            },
        };
        self.state.select(Some(i));
    }

    /// Moves the selection one step backward, wrapping around at index
    /// `0`. On an empty list this is a no-op. The scroll offset is
    /// untouched.
    pub fn previous(&mut self)
        ensures
            final(self).items == old(self).items,
            final(self).last_selected == old(self).last_selected,
            old(self).items@.len() == 0 ==> final(self).state == old(self).state,
            old(self).items@.len() > 0 ==> final(self).state.selected == Some(
                retreat_target(old(self).state.selected, old(self).last_selected, old(self).items.len()),
            ),
            old(self).items@.len() > 0 ==> final(self).state.offset == old(self).state.offset,
    {
        if self.items.len() == 0 {
            return;
        }
        let i: usize = match self.state.selected {
            Some(i) => {
                if i == 0 {
                    self.items.len() - 1
                } else {
                    i - 1
                }
            },
            None => match self.last_selected {
                Some(l) => l,
                None => 0,
            },
        };
        self.state.select(Some(i));
    }

    /// Clears the selection, remembering it when there was one, and
    /// preserves the scroll offset, so that losing the selection does not
    /// visually jump the list.
    pub fn unselect(&mut self)
        ensures
            final(self).items == old(self).items,
            final(self).state.selected is None,
            final(self).state.offset == old(self).state.offset,
            old(self).state.selected is Some ==> final(self).last_selected == old(self).state.selected,
            old(self).state.selected is None ==> final(self).last_selected == old(self).last_selected,
    {
        let offset: usize = self.state.offset();
        if self.state.selected().is_some() {
            self.last_selected = self.state.selected();
        }
        self.state.select(None);
        *self.state.offset_mut() = offset;
    }

    /// Selects the last item. On an empty list this is a no-op.
    pub fn select_last(&mut self)
        ensures
            final(self).items == old(self).items,
            final(self).last_selected == old(self).last_selected,
            old(self).items@.len() == 0 ==> final(self).state == old(self).state,
            old(self).items@.len() > 0 ==> final(self).state.selected == Some((old(self).items@.len() - 1) as usize),
            old(self).items@.len() > 0 ==> final(self).state.offset == old(self).state.offset,
    {
        if self.items.len() == 0 {
            return;
        }
        self.state.select(Some(self.items.len() - 1));
    }
}

} // verus!
