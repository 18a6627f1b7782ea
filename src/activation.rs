use vstd::prelude::*;
use crate::registry::TrayRegistry;

verus! {

/// The mouse button of a click on a tray item's button.
#[derive(PartialEq, Eq, Structural, Clone, Copy, Debug)]
pub enum ClickKind {
    Primary,
    Middle,
    Secondary,
}

/// What an activation asks of the item.
pub enum ActivationKind {
    /// The item's main action.
    Default,
    /// The item's less important action.
    Secondary,
    /// The entry `submenu_id` of the menu object at `menu_path`.
    MenuItem { menu_path: String, submenu_id: i32 },
}

/// An activation to send to the item at `service_key`; `x` and `y` are
/// screen coordinates, a hint for where the item may open a window.
pub struct ActivationRequest {
    pub service_key: String,
    pub kind: ActivationKind,
    pub x: i32,
    pub y: i32,
}

/// What a click on a tray item's button leads to.
pub enum ClickResponse {
    /// Send this activation to the item.
    Activate(ActivationRequest),
    /// Open the item's realized menu.
    OpenMenu,
}

/// The object path under which tray items serve their menus.
pub open spec fn menu_bar_path() -> Seq<char> {
    seq!['/', 'M', 'e', 'n', 'u', 'B', 'a', 'r']
}

/// Whether `r` is the default activation of `key` at (`x`, `y`).
pub open spec fn is_default_request(r: ActivationRequest, key: Seq<char>, x: i32, y: i32) -> bool {
    r.service_key@ == key && r.kind is Default && r.x == x && r.y == y
}

/// Whether `r` is the secondary activation of `key` at (`x`, `y`).
pub open spec fn is_secondary_request(r: ActivationRequest, key: Seq<char>, x: i32, y: i32) -> bool {
    r.service_key@ == key && r.kind is Secondary && r.x == x && r.y == y
}

/// Whether `r` activates the menu entry `node_id` of the item at `key`.
pub open spec fn is_menu_item_request(r: ActivationRequest, key: Seq<char>, node_id: i32) -> bool {
    &&& r.service_key@ == key
    &&& r.kind is MenuItem
    &&& r.kind->menu_path@ == menu_bar_path()
    &&& r.kind->submenu_id == node_id
    &&& r.x == 0 && r.y == 0
}

/// The default activation of the item at `service_key`.
pub fn trigger_default(service_key: &String, x: i32, y: i32) -> (r: ActivationRequest)
    ensures
        is_default_request(r, service_key@, x, y),
{
    ActivationRequest { service_key: service_key.clone(), kind: ActivationKind::Default, x, y }
}

/// The secondary activation of the item at `service_key`.
pub fn trigger_secondary(service_key: &String, x: i32, y: i32) -> (r: ActivationRequest)
    ensures
        is_secondary_request(r, service_key@, x, y),
{
    ActivationRequest { service_key: service_key.clone(), kind: ActivationKind::Secondary, x, y }
}

/// The activation of the menu entry `node_id` of the item at `service_key`.
pub fn trigger_menu_item(service_key: &String, node_id: i32) -> (r: ActivationRequest)
    ensures
        is_menu_item_request(r, service_key@, node_id),
{
    proof {
        reveal_strlit("/MenuBar");
    }
    let path = String::from_str("/MenuBar");
    assert(path@ =~= menu_bar_path());
    ActivationRequest {
        service_key: service_key.clone(),
        kind: ActivationKind::MenuItem { menu_path: path, submenu_id: node_id },
        x: 0,
        y: 0,
    }
}

impl<H> TrayRegistry<H> {
    /// What a click on the button of the item at `service_key` leads to:
    /// a primary click activates the item, a middle click sends its
    /// secondary activation, and a secondary click opens its menu when one
    /// was realized, else activates the item.
    pub fn click(&self, service_key: &String, kind: ClickKind, x: i32, y: i32) -> (r: ClickResponse)
        ensures
            match kind {
                ClickKind::Primary => r is Activate && is_default_request(r->0, service_key@, x, y),
                ClickKind::Middle => r is Activate && is_secondary_request(r->0, service_key@, x, y),
                ClickKind::Secondary => if self@.menus.contains_key(service_key@) {
                    r is OpenMenu
                } else {
                    r is Activate && is_default_request(r->0, service_key@, x, y)
                },
            },
    {
        match kind {
            ClickKind::Primary => ClickResponse::Activate(trigger_default(service_key, x, y)),
            ClickKind::Middle => ClickResponse::Activate(trigger_secondary(service_key, x, y)),
            ClickKind::Secondary => {
                if self.get_menu_for_service_key(service_key.as_str()).is_some() {
                    ClickResponse::OpenMenu
                } else {
                    ClickResponse::Activate(trigger_default(service_key, x, y))
                }
            },
        }
    }

    /// What a click on the button of the item with id `item_id` leads to,
    /// through the bus address that the id resolves to; none when the id
    /// names no live item.
    pub fn click_item(&self, item_id: &str, kind: ClickKind, x: i32, y: i32) -> (r: Option<ClickResponse>)
        ensures
            r is Some <==> self@.index.contains_key(item_id@),
            r is Some ==> {
                let key = self@.index[item_id@];
                match kind {
                    ClickKind::Primary => r->0 is Activate && is_default_request(r->0->0, key, x, y),
                    ClickKind::Middle => r->0 is Activate && is_secondary_request(r->0->0, key, x, y),
                    ClickKind::Secondary => if self@.menus.contains_key(key) {
                        r->0 is OpenMenu
                    } else {
                        r->0 is Activate && is_default_request(r->0->0, key, x, y)
                    },
                }
            },
    {
        match self.get_service_key_for_item(item_id) {
            Some(key) => Some(self.click(&key, kind, x, y)),
            None => None,
        }
    }
}

} // verus!
