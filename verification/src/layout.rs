//! Per-item geometry of a rendered window.
//!
//! Once the windower has chosen the visible range, each visible item
//! occupies a rectangle of the viewport: stacked downward from the top,
//! or upward from the bottom when the list grows from the bottom-left
//! corner. While a selection exists, every item is shifted right by the
//! display width of the highlight symbol, and the selected item's slot
//! says on how many of its rows the symbol is stamped. The caller draws
//! each item into its slot; nothing here touches a screen.

use vstd::prelude::*;

use crate::heights::{lemma_sum_extend, lemma_sum_nonneg, lemma_sum_sub_range, sum_heights};
use crate::list::{Corner, WidgetList};
use crate::width::{display_width, str_display_width};

verus! {

/// A rectangle of the character grid, in cells.
#[derive(Debug, Clone, Copy, PartialEq, Eq, Structural)]
pub struct Rect {
    pub x: u16,
    pub y: u16,
    pub width: u16,
    pub height: u16,
}

/// Where one visible item is drawn.
///
/// `area` is the item's full strip of the viewport; `item_area` is the
/// same strip shifted right past the highlight symbol, where the item's
/// own content goes. `highlight_rows` is the number of rows, counted from
/// the strip's top, on which the highlight symbol is stamped; it is `0`
/// unless the item is the selected one.
#[derive(Debug, Clone, Copy, PartialEq, Eq, Structural)]
pub struct ItemSlot {
    pub area: Rect,
    pub item_area: Rect,
    pub is_selected: bool,
    pub highlight_rows: u16,
}

/// The number of columns that items are shifted right: the display width
/// of the highlight symbol while a selection exists, clamped to the
/// viewport width, and `0` otherwise.
pub open spec fn spec_symbol_width(list: WidgetList, selected: Option<usize>, area_width: u16) -> int {
    if selected is Some {
        match list.highlight_symbol {
            Some(sym) => if display_width(sym@) <= area_width {
                display_width(sym@) as int
            } else {
                area_width as int
            },
            None => 0,
        }
    } else {
        0
    }
}

/// The slot of the `k`-th visible item, for the window starting at item
/// `start` inside `area`.
pub open spec fn slot_spec(
    list: WidgetList,
    area: Rect,
    start: int,
    selected: Option<usize>,
    k: int,
) -> ItemSlot {
    let idx = start + k;
    let h = list.items@[idx].height;
    let sym = spec_symbol_width(list, selected, area.width);
    let y = if list.start_corner is BottomLeft {
        area.y + area.height - sum_heights(list.items@, start, idx + 1)
    } else {
        area.y + sum_heights(list.items@, start, idx)
    };
    let is_sel = selected matches Some(chosen) && chosen == idx;
    ItemSlot {
        area: Rect { x: area.x, y: y as u16, width: area.width, height: h as u16 },
        item_area: Rect {
            x: (area.x + sym) as u16,
            y: y as u16,
            width: (area.width - sym) as u16,
            height: h as u16,
        },
        is_selected: is_sel,
        highlight_rows: if is_sel {
            if list.repeat_highlight_symbol {
                h as u16
            } else {
                1u16
            }
        } else {
            0u16
        },
    }
}

impl WidgetList {
    /// Computes where each item of the visible window `[start, end)` is
    /// drawn inside `area`: one slot per visible item, in window order.
    ///
    /// Items are stacked gaplessly, downward from the viewport's top row,
    /// or upward from its bottom row when the list grows from the
    /// bottom-left corner. The window must fit the viewport's height; a
    /// taller window is the caller's to crop first.
    #[verifier::loop_isolation(false)]
    pub fn layout_window(
        &self,
        area: Rect,
        start: usize,
        end: usize,
        selected: Option<usize>,
    ) -> (r: Vec<ItemSlot>)
        requires
            start <= end <= self.items@.len(),
            sum_heights(self.items@, start as int, end as int) <= area.height,
            area.y + area.height <= u16::MAX,
            area.x + area.width <= u16::MAX,
        ensures
            r@.len() == end - start,
            forall|k: int|
                0 <= k < r@.len() ==> r@[k] == slot_spec(*self, area, start as int, selected, k),
    {
        let ghost items = self.items@;
        let sym_w: u16 = if selected.is_some() {
            match &self.highlight_symbol {
                Some(sym) => {
                    let w: usize = str_display_width(sym.as_str());
                    if w > area.width as usize {
                        area.width
                    } else {
                        w as u16
                    }
                },
                None => 0,
            }
        } else {
            0
        };
        proof {
            assert(sym_w == spec_symbol_width(*self, selected, area.width));
        }
        let mut slots: Vec<ItemSlot> = Vec::new();
        let mut current_height: u16 = 0;
        let mut i: usize = start;
        while i < end
            invariant
                start <= i <= end,
                slots@.len() == i - start,
                current_height == sum_heights(items, start as int, i as int),
                forall|k: int|
                    0 <= k < slots@.len() ==> slots@[k] == slot_spec(
                        *self,
                        area,
                        start as int,
                        selected,
                        k,
                    ),
            decreases end - i,
        {
            proof {
                lemma_sum_extend(items, start as int, i as int);
                lemma_sum_sub_range(items, start as int, i as int + 1, start as int, end as int);
                lemma_sum_nonneg(items, start as int, i as int);
            }
            let h: u16 = self.items[i].height as u16;
            let y: u16;
            if matches!(self.start_corner, Corner::BottomLeft) {
                current_height = current_height + h;
                y = area.y + area.height - current_height;
            } else {
                y = area.y + current_height;
                current_height = current_height + h;
            }
            let is_sel = match selected {
                Some(chosen) => chosen == i,
                None => false,
            };
            let rows: u16 = if is_sel {
                if self.repeat_highlight_symbol {
                    h
                } else {
                    1
                }
            } else {
                0
            };
            let slot = ItemSlot {
                area: Rect { x: area.x, y, width: area.width, height: h },
                item_area: Rect {
                    x: area.x + sym_w,
                    y,
                    width: area.width - sym_w,
                    height: h,
                },
                is_selected: is_sel,
                highlight_rows: rows,
            };
            slots.push(slot);
            proof {
                assert(slots@[i - start] == slot_spec(*self, area, start as int, selected, i - start));
            }
            i = i + 1;
        }
        slots
    }
}

} // verus!
