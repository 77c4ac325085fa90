//! Display width of the highlight symbol.
//!
//! When a selection exists, every item is shifted right by the display
//! width of the highlight symbol, so that selected and unselected items
//! align. The width of a string in terminal columns is determined by the
//! Unicode tables that the `unicode_width` crate implements; it is named
//! here rather than restated.

use vstd::prelude::*;

verus! {

/// The number of terminal columns a string occupies, as the Unicode
/// east-asian-width rules give it. A function of the characters alone.
pub uninterp spec fn display_width(s: Seq<char>) -> nat;

/// Relies on `unicode_width::UnicodeWidthStr::width` for `str`: the
/// displayed width of the string in columns, a deterministic function of
/// its characters computed from static Unicode tables; the empty string
/// has width `0`.
#[verifier::external_body]
pub(crate) fn str_display_width(s: &str) -> (r: usize)
    ensures
        r == display_width(s@),
        s@.len() == 0 ==> r == 0,
{
    unicode_width::UnicodeWidthStr::width(s)
}

} // verus!
