//! Sums of item heights over index ranges.
//!
//! The windower reasons about the total height of a contiguous run of
//! items. [`sum_heights`] is that total as a mathematical function of the
//! item sequence and the half-open index range; the lemmas here are the
//! facts the windowing proofs lean on: sums are non-negative, split at any
//! midpoint, and grow monotonically with the range.

use vstd::prelude::*;

use crate::item::WidgetListItem;

verus! {

/// The total height of the items with indices in `[i, j)`, or `0` when
/// the range is empty.
pub open spec fn sum_heights(items: Seq<WidgetListItem>, i: int, j: int) -> int
    decreases j - i,
{
    if i < j {
        items[i].height + sum_heights(items, i + 1, j)
    } else {
        0
    }
}

/// A sum of heights is never negative.
pub proof fn lemma_sum_nonneg(items: Seq<WidgetListItem>, i: int, j: int)
    ensures
        sum_heights(items, i, j) >= 0,
    decreases j - i,
{
    if i < j {
        lemma_sum_nonneg(items, i + 1, j);
    }
}

/// A sum over `[i, j)` splits at any midpoint `k` into the sums over
/// `[i, k)` and `[k, j)`.
pub proof fn lemma_sum_split(items: Seq<WidgetListItem>, i: int, k: int, j: int)
    requires
        i <= k <= j,
    ensures
        sum_heights(items, i, j) == sum_heights(items, i, k) + sum_heights(items, k, j),
    decreases k - i,
{
    if i < k {
        lemma_sum_split(items, i + 1, k, j);
    }
}

/// Extending a range by one item on the right adds that item's height.
pub proof fn lemma_sum_extend(items: Seq<WidgetListItem>, i: int, j: int)
    requires
        i <= j,
    ensures
        sum_heights(items, i, j + 1) == sum_heights(items, i, j) + items[j].height,
{
    lemma_sum_split(items, i, j, j + 1);
    assert(sum_heights(items, j, j + 1) == items[j].height + sum_heights(items, j + 1, j + 1));
}

/// A sum over a sub-range is at most the sum over the enclosing range.
pub proof fn lemma_sum_sub_range(items: Seq<WidgetListItem>, i: int, j: int, lo: int, hi: int)
    requires
        lo <= i <= j <= hi,
    ensures
        sum_heights(items, i, j) <= sum_heights(items, lo, hi),
{
    lemma_sum_split(items, lo, i, hi);
    lemma_sum_split(items, i, j, hi);
    lemma_sum_nonneg(items, lo, i);
    lemma_sum_nonneg(items, j, hi);
}

} // verus!
