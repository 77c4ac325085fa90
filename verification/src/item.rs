//! The geometry of a single list item.
//!
//! The windower needs nothing of an item but its size: the height decides
//! which contiguous run of items fits the viewport. Drawing an item's
//! content is the presentation layer's business and happens outside this
//! crate; here an item is its reported width and height in character
//! cells, fixed for the duration of a render pass.

use vstd::prelude::*;

verus! {

/// The size an item occupies when rendered, in character cells.
#[derive(Debug, Clone, Copy, PartialEq, Eq, Structural)]
pub struct WidgetListItem {
    pub width: usize,
    pub height: usize,
}

impl WidgetListItem {
    /// An item of the given size.
    pub fn new(width: usize, height: usize) -> (r: Self)
        ensures
            r.width == width,
            r.height == height,
    {
        WidgetListItem { width, height }
    }

    /// The number of rows the item occupies.
    pub fn height(&self) -> (r: usize)
        ensures
            r == self.height,
    {
        self.height
    }

    /// The number of columns the item occupies.
    pub fn width(&self) -> (r: usize)
        ensures
            r == self.width,
    {
        self.width
    }
}

} // verus!
