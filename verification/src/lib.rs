pub mod heights;
pub mod item;
pub mod layout;
pub mod list;
pub mod state;
pub mod stateful;
pub mod width;

pub use item::WidgetListItem;
pub use layout::ItemSlot;
pub use layout::Rect;
pub use list::Corner;
pub use list::WidgetList;
pub use list::WidgetListEnd;
pub use state::WidgetListState;
pub use stateful::StatefulWidgetList;
