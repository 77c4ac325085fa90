use widget_list::Corner;
use widget_list::Rect;
use widget_list::WidgetList;
use widget_list::WidgetListItem;

fn list_of(heights: &[usize]) -> WidgetList {
    let mut items: Vec<WidgetListItem> = Vec::new();
    for &h in heights {
        items.push(WidgetListItem::new(10, h));
    }
    WidgetList::from(items)
}

fn area() -> Rect {
    Rect { x: 1, y: 3, width: 10, height: 5 }
}

#[test]
fn items_stack_downward_from_the_top() {
    let list = list_of(&[2, 1]);
    let slots = list.layout_window(area(), 0, 2, None);
    assert_eq!(slots.len(), 2);
    assert_eq!(slots[0].area, Rect { x: 1, y: 3, width: 10, height: 2 });
    assert_eq!(slots[1].area, Rect { x: 1, y: 5, width: 10, height: 1 });
    // Without a selection nothing is shifted or highlighted.
    assert_eq!(slots[0].item_area, slots[0].area);
    assert_eq!(slots[0].highlight_rows, 0);
    assert!(!slots[0].is_selected);
}

#[test]
fn items_stack_upward_from_the_bottom() {
    let list = list_of(&[2, 1]).start_corner(Corner::BottomLeft);
    let slots = list.layout_window(area(), 0, 2, None);
    assert_eq!(slots[0].area, Rect { x: 1, y: 6, width: 10, height: 2 });
    assert_eq!(slots[1].area, Rect { x: 1, y: 5, width: 10, height: 1 });
}

#[test]
fn selection_shifts_every_item_by_the_symbol_width() {
    let list = list_of(&[2, 1]).highlight_symbol(">>");
    let slots = list.layout_window(area(), 0, 2, Some(0));
    assert_eq!(slots[0].item_area, Rect { x: 3, y: 3, width: 8, height: 2 });
    // The unselected item is shifted too, so the columns align.
    assert_eq!(slots[1].item_area, Rect { x: 3, y: 5, width: 8, height: 1 });
    assert!(slots[0].is_selected);
    assert!(!slots[1].is_selected);
}

#[test]
fn symbol_width_is_its_display_width() {
    // One character, three bytes, two columns wide: the shift goes by
    // terminal columns, not by bytes or characters.
    let list = list_of(&[1]).highlight_symbol("\u{4f60}");
    let slots = list.layout_window(area(), 0, 1, Some(0));
    assert_eq!(slots[0].item_area.x, 3);
    assert_eq!(slots[0].item_area.width, 8);
}

#[test]
fn symbol_wider_than_the_viewport_is_clamped() {
    let list = list_of(&[1]).highlight_symbol("------------");
    let slots = list.layout_window(area(), 0, 1, Some(0));
    assert_eq!(slots[0].item_area.x, 11);
    assert_eq!(slots[0].item_area.width, 0);
}

#[test]
fn no_shift_without_a_selection() {
    let list = list_of(&[1]).highlight_symbol(">>");
    let slots = list.layout_window(area(), 0, 1, None);
    assert_eq!(slots[0].item_area, slots[0].area);
}

#[test]
fn highlight_is_stamped_once_by_default() {
    let list = list_of(&[3]).highlight_symbol(">>");
    let slots = list.layout_window(area(), 0, 1, Some(0));
    assert_eq!(slots[0].highlight_rows, 1);
}

#[test]
fn repeated_highlight_covers_every_row() {
    let list = list_of(&[3]).highlight_symbol(">>").repeat_highlight_symbol(true);
    let slots = list.layout_window(area(), 0, 1, Some(0));
    assert_eq!(slots[0].highlight_rows, 3);
}

#[test]
fn empty_window_issues_no_slots() {
    let list = list_of(&[]);
    let slots = list.layout_window(area(), 0, 0, None);
    assert_eq!(slots.len(), 0);
}

#[test]
fn window_in_the_middle_of_the_list() {
    let list = list_of(&[3, 1, 2, 4, 1]);
    let slots = list.layout_window(Rect { x: 0, y: 0, width: 4, height: 6 }, 2, 4, Some(3));
    assert_eq!(slots.len(), 2);
    assert_eq!(slots[0].area, Rect { x: 0, y: 0, width: 4, height: 2 });
    assert_eq!(slots[1].area, Rect { x: 0, y: 2, width: 4, height: 4 });
    assert!(!slots[0].is_selected);
    assert!(slots[1].is_selected);
}
