use widget_list::WidgetList;
use widget_list::WidgetListItem;

fn list_of(heights: &[usize]) -> WidgetList {
    let mut items: Vec<WidgetListItem> = Vec::new();
    for &h in heights {
        items.push(WidgetListItem::new(10, h));
    }
    WidgetList::from(items)
}

#[test]
fn forward_slide_scenario() {
    // Heights [3,1,2,4,1] in 6 rows: the window grown from offset 0 is
    // [0,3) with height 6; selection 3 lies outside, so the end slides
    // past it while items 0 and 1 are evicted from the start.
    let list = list_of(&[3, 1, 2, 4, 1]);
    let (start, end) = list.get_items_bounds(Some(3), 0, 6);
    assert_eq!((start, end), (2, 4));
}

#[test]
fn empty_list_yields_empty_window() {
    let list = list_of(&[]);
    assert_eq!(list.get_items_bounds(None, 0, 10), (0, 0));
    assert_eq!(list.get_items_bounds(Some(0), 3, 10), (0, 0));
}

#[test]
fn contained_selection_moves_nothing() {
    let list = list_of(&[1, 1, 1, 1]);
    let (start, end) = list.get_items_bounds(Some(2), 1, 2);
    assert_eq!((start, end), (1, 3));
}

#[test]
fn forward_slide_is_minimal() {
    let list = list_of(&[1, 1, 1, 1]);
    let (start, end) = list.get_items_bounds(Some(3), 0, 2);
    assert_eq!((start, end), (2, 4));
}

#[test]
fn backward_slide_evicts_from_end() {
    let list = list_of(&[1, 10, 1]);
    let (start, end) = list.get_items_bounds(Some(0), 2, 6);
    assert_eq!((start, end), (0, 1));
}

#[test]
fn oversize_selected_item_is_shown_alone() {
    let list = list_of(&[10]);
    assert_eq!(list.get_items_bounds(Some(0), 0, 6), (0, 1));
    let list = list_of(&[3, 10, 2]);
    assert_eq!(list.get_items_bounds(Some(1), 0, 6), (1, 2));
}

#[test]
fn no_selection_keeps_offset() {
    let list = list_of(&[1, 1, 1]);
    let (start, end) = list.get_items_bounds(None, 1, 2);
    assert_eq!((start, end), (1, 3));
}

#[test]
fn no_selection_gets_no_backward_correction() {
    // Nothing must be brought into view, so an oversize first item at the
    // offset leaves the window empty.
    let list = list_of(&[10, 1]);
    assert_eq!(list.get_items_bounds(None, 0, 6), (0, 0));
}

#[test]
fn stale_offset_is_clamped() {
    let list = list_of(&[1, 1, 1]);
    assert_eq!(list.get_items_bounds(None, 99, 10), (2, 3));
}

#[test]
fn stale_selection_is_clamped() {
    let list = list_of(&[1, 1, 1]);
    assert_eq!(list.get_items_bounds(Some(99), 0, 3), (0, 3));
}

#[test]
fn zero_height_viewport_shows_selection_alone() {
    let list = list_of(&[1, 2]);
    assert_eq!(list.get_items_bounds(Some(1), 0, 0), (1, 2));
}

#[test]
fn window_never_splits_items() {
    // 4 rows hold items 0 and 1 (heights 3 and 1); item 2 would need a
    // partial row, so it stays out entirely.
    let list = list_of(&[3, 1, 2]);
    assert_eq!(list.get_items_bounds(None, 0, 4), (0, 2));
    assert_eq!(list.get_items_bounds(None, 0, 5), (0, 2));
    assert_eq!(list.get_items_bounds(None, 0, 6), (0, 3));
}

#[test]
fn len_and_is_empty_report_items() {
    let list = list_of(&[1, 2]);
    assert_eq!(list.len(), 2);
    assert!(!list.is_empty());
    let empty = WidgetList::default();
    assert_eq!(empty.len(), 0);
    assert!(empty.is_empty());
}

#[test]
fn offset_persists_across_frames() {
    // Frame one: selecting item 4 slides the window to [3, 5). Frame two
    // starts from the persisted offset 3; item 3 is already visible, so
    // the window does not move.
    let list = list_of(&[1, 1, 1, 1, 1]);
    let (start, end) = list.get_items_bounds(Some(4), 0, 2);
    assert_eq!((start, end), (3, 5));
    let (start, end) = list.get_items_bounds(Some(3), start, 2);
    assert_eq!((start, end), (3, 5));
}
