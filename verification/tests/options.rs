use widget_list::Corner;
use widget_list::WidgetList;
use widget_list::WidgetListEnd;
use widget_list::WidgetListItem;

#[test]
fn default_list_is_plain() {
    let list = WidgetList::default();
    assert_eq!(list.items.len(), 0);
    assert!(matches!(list.start_corner, Corner::TopLeft));
    assert_eq!(list.highlight_symbol, None);
    assert!(!list.repeat_highlight_symbol);
    assert!(matches!(list.follow_end, WidgetListEnd::Top));
}

#[test]
fn from_items_keeps_the_items() {
    let items = vec![WidgetListItem::new(4, 2), WidgetListItem::new(5, 3)];
    let list = WidgetList::from(items.clone());
    assert_eq!(list.items, items);
    assert!(matches!(list.start_corner, Corner::TopLeft));
}

#[test]
fn builders_set_their_options() {
    let list = WidgetList::default()
        .highlight_symbol("> ")
        .repeat_highlight_symbol(true)
        .start_corner(Corner::BottomLeft)
        .follow(WidgetListEnd::Bottom);
    assert_eq!(list.highlight_symbol.as_deref(), Some("> "));
    assert!(list.repeat_highlight_symbol);
    assert!(matches!(list.start_corner, Corner::BottomLeft));
    assert!(matches!(list.follow_end, WidgetListEnd::Bottom));
}

#[test]
fn items_report_their_size() {
    let item = WidgetListItem::new(7, 2);
    assert_eq!(item.width(), 7);
    assert_eq!(item.height(), 2);
}
