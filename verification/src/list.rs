//! The widget list and its viewport windower.
//!
//! A [`WidgetList`] is an ordered sequence of items, each reporting its
//! own height, together with presentation options that affect the
//! bounding geometry. Its heart is [`WidgetList::get_items_bounds`]: given
//! the selection, the scroll offset remembered from the previous frame,
//! and the rows available, it computes the half-open window `[start, end)`
//! of visible items. The window always contains the selection, respects
//! the height budget whenever possible, and moves the previous offset only
//! as far as needed, so the viewport never jumps.

use vstd::prelude::*;

use crate::heights::{
    lemma_sum_extend, lemma_sum_nonneg, lemma_sum_split, lemma_sum_sub_range, sum_heights,
};
use crate::item::WidgetListItem;

verus! {

/// The end of the list that the viewport should follow when items grow.
#[derive(Debug, Clone, PartialEq, Eq, Structural)]
pub enum WidgetListEnd {
    Top,
    Bottom,
}

/// The corner of the viewport in which the first visible item is placed.
/// Only [`Corner::BottomLeft`] stacks items upward from the bottom; every
/// other corner stacks them downward from the top.
#[derive(Debug, Clone, Copy, PartialEq, Eq, Structural)]
pub enum Corner {
    TopLeft,
    TopRight,
    BottomLeft,
    BottomRight,
}

/// An index clamped into `[0, n - 1]`, guarding against a stale index
/// after items were removed.
pub open spec fn clamp_index(i: int, n: int) -> int {
    if i < n {
        i
    } else {
        n - 1
    }
}

/// The end of the window grown forward from `from`: starting at `end`,
/// the window is extended one item at a time while the total height still
/// fits `max_height`. The result is the largest end the budget allows.
pub open spec fn fit_end(items: Seq<WidgetListItem>, max_height: int, from: int, end: int) -> int
    decreases items.len() - end,
{
    if end < items.len() && sum_heights(items, from, end + 1) <= max_height {
        fit_end(items, max_height, from, end + 1)
    } else {
        end
    }
}

/// The start of the window `[.., s + 1)` slid forward from `from`: the
/// least start from which the window ending just after `s` fits
/// `max_height`, or `s` itself when even the item alone does not fit.
pub open spec fn fwd_start(items: Seq<WidgetListItem>, max_height: int, from: int, s: int) -> int
    decreases s - from,
{
    if from < s && sum_heights(items, from, s + 1) > max_height {
        fwd_start(items, max_height, from + 1, s)
    } else {
        from
    }
}

/// The end of the window `[s, ..)` shrunk back from `end`: the greatest
/// end at most `end` for which the window starting at `s` fits
/// `max_height`, or `s + 1` when even the item alone does not fit.
pub open spec fn back_end(items: Seq<WidgetListItem>, max_height: int, s: int, end: int) -> int
    decreases end - s,
{
    if end > s + 1 && sum_heights(items, s, end) > max_height {
        back_end(items, max_height, s, end - 1)
    } else {
        end
    }
}

/// The visible window for selection `s` and remembered offset `offset`,
/// both already clamped into range. The window is first grown forward
/// from `offset` as far as the height budget allows; only when the
/// selection lies outside it does it slide: forward past the selection,
/// evicting from the start, or backward to the selection, evicting from
/// the end. The slide is the minimal one that brings the selection in.
pub open spec fn window_spec(items: Seq<WidgetListItem>, s: int, offset: int, max_height: int) -> (
    int,
    int,
) {
    let e0 = fit_end(items, max_height, offset, offset);
    if s < offset {
        (s, back_end(items, max_height, s, e0))
    } else if s < e0 {
        (offset, e0)
    } else {
        (fwd_start(items, max_height, offset, s), s + 1)
    }
}

/// The grown window stays within the list: `fit_end` moves the end only
/// forward, and never past the last item.
pub proof fn lemma_fit_end_bounds(items: Seq<WidgetListItem>, maxh: int, from: int, end: int)
    requires
        0 <= end <= items.len(),
    ensures
        end <= fit_end(items, maxh, from, end) <= items.len(),
    decreases items.len() - end,
{
    if end < items.len() && sum_heights(items, from, end + 1) <= maxh {
        lemma_fit_end_bounds(items, maxh, from, end + 1);
    }
}

/// Growing the window forward never overruns the height budget: if the
/// window fits before growing, it fits afterwards.
pub proof fn lemma_fit_end_fits(items: Seq<WidgetListItem>, maxh: int, from: int, end: int)
    requires
        sum_heights(items, from, end) <= maxh,
    ensures
        sum_heights(items, from, fit_end(items, maxh, from, end)) <= maxh,
    decreases items.len() - end,
{
    if end < items.len() && sum_heights(items, from, end + 1) <= maxh {
        lemma_fit_end_fits(items, maxh, from, end + 1);
    }
}

/// The forward slide keeps the start between the old offset and the
/// selection.
pub proof fn lemma_fwd_start_bounds(items: Seq<WidgetListItem>, maxh: int, from: int, s: int)
    requires
        from <= s,
    ensures
        from <= fwd_start(items, maxh, from, s) <= s,
    decreases s - from,
{
    if from < s && sum_heights(items, from, s + 1) > maxh {
        lemma_fwd_start_bounds(items, maxh, from + 1, s);
    }
}

/// After the forward slide the window fits the height budget, unless it
/// was pushed all the way to the selected item standing alone.
pub proof fn lemma_fwd_start_fits(items: Seq<WidgetListItem>, maxh: int, from: int, s: int)
    requires
        from <= s,
    ensures
        sum_heights(items, fwd_start(items, maxh, from, s), s + 1) <= maxh || fwd_start(
            items,
            maxh,
            from,
            s,
        ) == s,
    decreases s - from,
{
    if from < s && sum_heights(items, from, s + 1) > maxh {
        lemma_fwd_start_fits(items, maxh, from + 1, s);
    }
}

/// The forward slide is minimal: every window that ends just past the
/// selection but starts earlier than the slide's result overruns the
/// height budget.
pub proof fn lemma_fwd_start_minimal(items: Seq<WidgetListItem>, maxh: int, from: int, s: int)
    requires
        from <= s,
    ensures
        forall|t: int|
            from <= t < fwd_start(items, maxh, from, s) ==> #[trigger] sum_heights(items, t, s + 1)
                > maxh,
    decreases s - from,
{
    if from < s && sum_heights(items, from, s + 1) > maxh {
        lemma_fwd_start_minimal(items, maxh, from + 1, s);
    }
}

/// The backward slide keeps the end between the selection and the old
/// end.
pub proof fn lemma_back_end_bounds(items: Seq<WidgetListItem>, maxh: int, s: int, end: int)
    requires
        s + 1 <= end,
    ensures
        s + 1 <= back_end(items, maxh, s, end) <= end,
    decreases end - s,
{
    if end > s + 1 && sum_heights(items, s, end) > maxh {
        lemma_back_end_bounds(items, maxh, s, end - 1);
    }
}

/// After the backward slide the window fits the height budget, unless it
/// was shrunk all the way to the selected item standing alone.
pub proof fn lemma_back_end_fits(items: Seq<WidgetListItem>, maxh: int, s: int, end: int)
    requires
        s + 1 <= end,
    ensures
        sum_heights(items, s, back_end(items, maxh, s, end)) <= maxh || back_end(
            items,
            maxh,
            s,
            end,
        ) == s + 1,
    decreases end - s,
{
    if end > s + 1 && sum_heights(items, s, end) > maxh {
        lemma_back_end_fits(items, maxh, s, end - 1);
    }
}

/// The backward slide is minimal: every window that starts at the
/// selection but ends later than the slide's result overruns the height
/// budget.
pub proof fn lemma_back_end_maximal(items: Seq<WidgetListItem>, maxh: int, s: int, end: int)
    requires
        s + 1 <= end,
    ensures
        forall|e: int|
            back_end(items, maxh, s, end) < e <= end ==> #[trigger] sum_heights(items, s, e)
                > maxh,
    decreases end - s,
{
    if end > s + 1 && sum_heights(items, s, end) > maxh {
        lemma_back_end_maximal(items, maxh, s, end - 1);
    }
}

/// Law: window containment. For every non-empty list and every in-range
/// selection, the computed window `[start, end)` contains the selection.
pub proof fn lemma_window_containment(items: Seq<WidgetListItem>, s: int, offset: int, maxh: int)
    requires
        0 <= s < items.len(),
        0 <= offset < items.len(),
    ensures
        ({
            let (start, end) = window_spec(items, s, offset, maxh);
            0 <= start <= s < end <= items.len()
        }),
{
    let e0 = fit_end(items, maxh, offset, offset);
    lemma_fit_end_bounds(items, maxh, offset, offset);
    if s < offset {
        lemma_back_end_bounds(items, maxh, s, e0);
    } else if s < e0 {
    } else {
        lemma_fwd_start_bounds(items, maxh, offset, s);
    }
}

/// Law: height bound. The heights of the windowed items sum to at most
/// `maxh`, except when the selected item alone is taller than the whole
/// viewport; it is then shown alone, since items are never split.
pub proof fn lemma_window_height_bound(items: Seq<WidgetListItem>, s: int, offset: int, maxh: int)
    requires
        0 <= s < items.len(),
        0 <= offset < items.len(),
        maxh >= 0,
    ensures
        ({
            let (start, end) = window_spec(items, s, offset, maxh);
            sum_heights(items, start, end) <= maxh || (start == s && end == s + 1 && items[s].height
                > maxh)
        }),
{
    let e0 = fit_end(items, maxh, offset, offset);
    lemma_fit_end_bounds(items, maxh, offset, offset);
    assert(sum_heights(items, offset, offset) == 0);
    lemma_fit_end_fits(items, maxh, offset, offset);
    if s < offset {
        lemma_back_end_fits(items, maxh, s, e0);
        assert(sum_heights(items, s, s + 1) == items[s].height + sum_heights(items, s + 1, s + 1));
    } else if s < e0 {
    } else {
        lemma_fwd_start_fits(items, maxh, offset, s);
        assert(sum_heights(items, s, s + 1) == items[s].height + sum_heights(items, s + 1, s + 1));
    }
}

/// Law: minimal movement. When the window grown from the remembered
/// offset already contains the selection, the window is exactly that one:
/// the offset does not move at all.
pub proof fn lemma_minimal_movement(items: Seq<WidgetListItem>, s: int, offset: int, maxh: int)
    requires
        0 <= offset <= s,
        s < fit_end(items, maxh, offset, offset),
    ensures
        window_spec(items, s, offset, maxh) == (offset, fit_end(items, maxh, offset, offset)),
{
}

/// Law: minimal movement, forward. When the selection lies past the grown
/// window, the start moves forward only as far as needed: from any
/// earlier start the window ending just past the selection would overrun
/// the height budget.
pub proof fn lemma_forward_slide_minimal(
    items: Seq<WidgetListItem>,
    s: int,
    offset: int,
    maxh: int,
)
    requires
        0 <= offset <= s < items.len(),
        fit_end(items, maxh, offset, offset) <= s,
    ensures
        forall|t: int|
            offset <= t < window_spec(items, s, offset, maxh).0 ==> #[trigger] sum_heights(
                items,
                t,
                s + 1,
            ) > maxh,
{
    lemma_fwd_start_minimal(items, maxh, offset, s);
}

/// Law: minimal movement, backward. When the selection lies before the
/// window, the start moves exactly to it and the end gives way only as
/// far as needed: any longer window starting at the selection would
/// overrun the height budget.
pub proof fn lemma_backward_slide_minimal(
    items: Seq<WidgetListItem>,
    s: int,
    offset: int,
    maxh: int,
)
    requires
        0 <= s < offset < items.len(),
    ensures
        window_spec(items, s, offset, maxh).0 == s,
        forall|e: int|
            window_spec(items, s, offset, maxh).1 < e <= fit_end(items, maxh, offset, offset)
                ==> #[trigger] sum_heights(items, s, e) > maxh,
{
    let e0 = fit_end(items, maxh, offset, offset);
    lemma_fit_end_bounds(items, maxh, offset, offset);
    lemma_back_end_maximal(items, maxh, s, e0);
}

/// A scrollable, selectable list of variably sized items.
///
/// The items and the presentation options are plain data; the windowing
/// algorithm lives in [`Self::get_items_bounds`] and the per-item
/// geometry in [`Self::layout_window`](crate::layout).
#[derive(Debug, Clone)]
pub struct WidgetList {
    pub items: Vec<WidgetListItem>,
    pub start_corner: Corner,
    /// Symbol drawn in front of the selected item; all items shift right
    /// by its display width while a selection exists.
    pub highlight_symbol: Option<String>,
    /// Whether to repeat the highlight symbol on every row of a
    /// multi-row selected item, rather than on its first row only.
    pub repeat_highlight_symbol: bool,
    pub follow_end: WidgetListEnd,
}

impl Default for WidgetList {
    /// An empty list stacking from the top-left corner, with no highlight
    /// symbol and the viewport following the top of the list.
    fn default() -> (r: Self)
        ensures
            r.items@.len() == 0,
            r.start_corner is TopLeft,
            r.highlight_symbol is None,
            !r.repeat_highlight_symbol,
            r.follow_end is Top,
    {
        WidgetList {
            items: Vec::new(),
            start_corner: Corner::TopLeft,
            highlight_symbol: None,
            repeat_highlight_symbol: false,
            follow_end: WidgetListEnd::Top,
        }
    }
}

impl From<Vec<WidgetListItem>> for WidgetList {
    /// A list over the given items, with every option at its default.
    fn from(value: Vec<WidgetListItem>) -> (r: WidgetList) {
        WidgetList {
            items: value,
            start_corner: Corner::TopLeft,
            highlight_symbol: None,
            repeat_highlight_symbol: false,
            follow_end: WidgetListEnd::Top,
        }
    }
}

impl vstd::std_specs::convert::FromSpecImpl<Vec<WidgetListItem>> for WidgetList {
    open spec fn obeys_from_spec() -> bool {
        true
    }

    open spec fn from_spec(value: Vec<WidgetListItem>) -> WidgetList {
        WidgetList {
            items: value,
            start_corner: Corner::TopLeft,
            highlight_symbol: None,
            repeat_highlight_symbol: false,
            follow_end: WidgetListEnd::Top,
        }
    }
}

impl WidgetList {
    /// The same list with the highlight symbol set.
    pub fn highlight_symbol(self, highlight_symbol: &str) -> (r: WidgetList)
        ensures
            r.highlight_symbol matches Some(s) && s@ == highlight_symbol@,
            r.items == self.items,
            r.start_corner == self.start_corner,
            r.repeat_highlight_symbol == self.repeat_highlight_symbol,
            r.follow_end == self.follow_end,
    {
        WidgetList { highlight_symbol: Some(highlight_symbol.to_owned()), ..self }
    }

    /// The same list with the highlight symbol repeated, or not, on every
    /// row of a multi-row selected item.
    pub fn repeat_highlight_symbol(self, repeat: bool) -> (r: WidgetList)
        ensures
            r.repeat_highlight_symbol == repeat,
            r.items == self.items,
            r.start_corner == self.start_corner,
            r.highlight_symbol == self.highlight_symbol,
            r.follow_end == self.follow_end,
    {
        WidgetList { repeat_highlight_symbol: repeat, ..self }
    }

    /// The same list stacking its visible items from the given corner.
    pub fn start_corner(self, corner: Corner) -> (r: WidgetList)
        ensures
            r.start_corner == corner,
            r.items == self.items,
            r.highlight_symbol == self.highlight_symbol,
            r.repeat_highlight_symbol == self.repeat_highlight_symbol,
            r.follow_end == self.follow_end,
    {
        WidgetList { start_corner: corner, ..self }
    }

    /// The same list following the given end when items grow.
    pub fn follow(self, end: WidgetListEnd) -> (r: WidgetList)
        ensures
            r.follow_end == end,
            r.items == self.items,
            r.start_corner == self.start_corner,
            r.highlight_symbol == self.highlight_symbol,
            r.repeat_highlight_symbol == self.repeat_highlight_symbol,
    {
        WidgetList { follow_end: end, ..self }
    }

    /// The number of items in the list.
    pub fn len(&self) -> (r: usize)
        ensures
            r == self.items@.len(),
    {
        self.items.len()
    }

    /// Whether the list holds no items.
    pub fn is_empty(&self) -> (r: bool)
        ensures
            r == (self.items@.len() == 0),
    {
        self.items.len() == 0
    }

    /// Computes the visible window `[start, end)` for the given selection,
    /// the offset remembered from the previous frame, and the rows
    /// available.
    ///
    /// The window is grown forward from the (clamped) offset while the
    /// height budget allows. When there is no selection that window is the
    /// answer; otherwise, if the selection lies outside it, the window
    /// slides the minimal distance that brings the selection in: its end
    /// moves forward past the selection while items are evicted from the
    /// start, or its start moves back to the selection while items are
    /// evicted from the end. A selected item taller than the whole
    /// viewport is shown alone; items are never split. The returned
    /// `start` is the corrected offset to persist for the next frame.
    #[verifier::loop_isolation(false)]
    pub fn get_items_bounds(
        &self,
        selected: Option<usize>,
        offset: usize,
        max_height: usize,
    ) -> (r: (usize, usize))
        requires
            sum_heights(self.items@, 0, self.items@.len() as int) <= usize::MAX,
        ensures
            self.items@.len() == 0 ==> r == (0usize, 0usize),
            self.items@.len() > 0 && selected is None ==> ({
                let off = clamp_index(offset as int, self.items@.len() as int);
                &&& r.0 == off
                &&& r.1 == fit_end(self.items@, max_height as int, off, off)
                &&& sum_heights(self.items@, off, r.1 as int) <= max_height
                &&& (r.1 == self.items@.len() || sum_heights(self.items@, off, r.1 + 1) > max_height)
            }),
            selected matches Some(chosen) ==> self.items@.len() > 0 ==> ({
                let n = self.items@.len() as int;
                let off = clamp_index(offset as int, n);
                let s = clamp_index(chosen as int, n);
                &&& (r.0 as int, r.1 as int) == window_spec(self.items@, s, off, max_height as int)
                &&& r.0 <= s < r.1 <= n
                &&& (sum_heights(self.items@, r.0 as int, r.1 as int) <= max_height || (r.0 == s
                    && r.1 == s + 1 && self.items@[s].height > max_height))
            }),
    {
        let ghost items = self.items@;
        let ghost maxh = max_height as int;
        let n: usize = self.items.len();
        if n == 0 {
            return (0, 0);
        }
        let off: usize = if offset < n {
            offset
        } else {
            n - 1
        };

        // Grow the window forward from the offset while the height fits.
        let mut end: usize = off;
        let mut height: usize = 0;
        while end < n && self.items[end].height <= max_height - height
            invariant
                off <= end <= n,
                height == sum_heights(items, off as int, end as int),
                height <= max_height,
                fit_end(items, maxh, off as int, end as int) == fit_end(
                    items,
                    maxh,
                    off as int,
                    off as int,
                ),
            decreases n - end,
        {
            proof {
                lemma_sum_extend(items, off as int, end as int);
                assert(fit_end(items, maxh, off as int, end as int) == fit_end(
                    items,
                    maxh,
                    off as int,
                    end as int + 1,
                ));
            }
            height = height + self.items[end].height;
            end = end + 1;
        }
        proof {
            if end < n {
                lemma_sum_extend(items, off as int, end as int);
            }
            assert(fit_end(items, maxh, off as int, end as int) == end);
        }

        let sel: usize = match selected {
            None => {
                return (off, end);
            },
            Some(s) => if s < n {
                s
            } else {
                n - 1
            },
        };
        let ghost e0 = end as int;

        let mut start: usize = off;
        if sel >= end {
            // The selection lies past the window: slide the end forward
            // past it, evicting from the start as the budget requires.
            while sel >= end
                invariant
                    off <= start <= sel,
                    start <= end <= sel + 1,
                    height == sum_heights(items, start as int, end as int),
                    height <= max_height || start + 1 == end,
                    fwd_start(items, maxh, start as int, sel as int) == fwd_start(
                        items,
                        maxh,
                        off as int,
                        sel as int,
                    ),
                decreases sel + 1 - end,
            {
                proof {
                    lemma_sum_extend(items, start as int, end as int);
                    lemma_sum_sub_range(items, start as int, end as int + 1, 0, n as int);
                }
                height = height + self.items[end].height;
                end = end + 1;
                while height > max_height && start + 1 < end
                    invariant
                        off <= start <= sel,
                        start < end <= sel + 1,
                        height == sum_heights(items, start as int, end as int),
                        fwd_start(items, maxh, start as int, sel as int) == fwd_start(
                            items,
                            maxh,
                            off as int,
                            sel as int,
                        ),
                    decreases end - start,
                {
                    proof {
                        assert(sum_heights(items, start as int, end as int) == items[start as int].height
                            + sum_heights(items, start as int + 1, end as int));
                        lemma_sum_nonneg(items, start as int + 1, end as int);
                        // A window ending just past the selection and still
                        // beginning at the evicted item cannot fit either.
                        lemma_sum_split(items, start as int, end as int, sel as int + 1);
                        lemma_sum_nonneg(items, end as int, sel as int + 1);
                        assert(fwd_start(items, maxh, start as int, sel as int) == fwd_start(
                            items,
                            maxh,
                            start as int + 1,
                            sel as int,
                        ));
                    }
                    height = height - self.items[start].height;
                    start = start + 1;
                }
            }
            proof {
                assert(end == sel + 1);
                if height <= max_height {
                    assert(fwd_start(items, maxh, start as int, sel as int) == start);
                } else {
                    assert(start == sel);
                    assert(fwd_start(items, maxh, sel as int, sel as int) == sel);
                    assert(sum_heights(items, sel as int, sel as int + 1) == items[sel as int].height
                        + sum_heights(items, sel as int + 1, sel as int + 1));
                }
            }
            return (start, end);
        }
        if sel < start {
            // The selection lies before the window: slide the start back
            // to it, evicting from the end as the budget requires.
            while sel < start
                invariant
                    sel <= start <= end,
                    end <= e0,
                    start < end || sel < start,
                    height == sum_heights(items, start as int, end as int),
                    height <= max_height || end == start + 1,
                    back_end(items, maxh, sel as int, end as int) == back_end(
                        items,
                        maxh,
                        sel as int,
                        e0,
                    ),
                decreases start - sel,
            {
                proof {
                    assert(sum_heights(items, start as int - 1, end as int) == items[start as int - 1].height
                        + sum_heights(items, start as int, end as int));
                    lemma_sum_sub_range(items, start as int - 1, end as int, 0, n as int);
                }
                start = start - 1;
                height = height + self.items[start].height;
                while height > max_height && start + 1 < end
                    invariant
                        sel <= start < end,
                        end <= e0,
                        height == sum_heights(items, start as int, end as int),
                        back_end(items, maxh, sel as int, end as int) == back_end(
                            items,
                            maxh,
                            sel as int,
                            e0,
                        ),
                    decreases end - start,
                {
                    proof {
                        lemma_sum_extend(items, start as int, end as int - 1);
                        lemma_sum_nonneg(items, start as int, end as int - 1);
                        // A window starting at the selection and still ending
                        // at the evicted item cannot fit either.
                        lemma_sum_split(items, sel as int, start as int, end as int);
                        lemma_sum_nonneg(items, sel as int, start as int);
                        assert(back_end(items, maxh, sel as int, end as int) == back_end(
                            items,
                            maxh,
                            sel as int,
                            end as int - 1,
                        ));
                    }
                    end = end - 1;
                    height = height - self.items[end].height;
                }
            }
            proof {
                assert(start == sel);
                if height <= max_height {
                    assert(back_end(items, maxh, sel as int, end as int) == end);
                } else {
                    assert(end == sel + 1);
                    assert(sum_heights(items, sel as int, sel as int + 1) == items[sel as int].height
                        + sum_heights(items, sel as int + 1, sel as int + 1));
                }
            }
            return (start, end);
        }
        (start, end)
    }
}

} // verus!

