use vstd::prelude::*;
use crate::icon::IconSource;
use crate::item::{Tooltip, TrayItem};
use crate::menu::MenuNode;

verus! {

/// A change to one field of a tray item, or a menu tree that arrived for it.
pub enum ItemUpdate {
    Icon(Option<IconSource>),
    Title(Option<String>),
    Tooltip(Option<Tooltip>),
    /// The item's whole menu tree.
    Menu(Vec<MenuNode>),
    /// A change that the mirror does not keep (status, overlay or
    /// attention icons, partial menu changes).
    Other,
}

/// One event of the stream that the bus client produces, keyed by the
/// item's bus address.
pub enum TrayEvent {
    /// An item appeared, with its menu tree when one came along with it.
    Add(String, TrayItem, Option<Vec<MenuNode>>),
    Update(String, ItemUpdate),
    Remove(String),
}

/// The bus address that an event is about.
pub open spec fn event_key(e: TrayEvent) -> Seq<char> {
    match e {
        TrayEvent::Add(k, _, _) => k@,
        TrayEvent::Update(k, _) => k@,
        TrayEvent::Remove(k) => k@,
    }
}

} // verus!
