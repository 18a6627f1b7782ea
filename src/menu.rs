use vstd::prelude::*;

verus! {

/// Whether a menu node is an ordinary entry or a divider.
#[derive(PartialEq, Eq, Structural, Clone, Copy, Debug)]
pub enum MenuKind {
    Standard,
    Separator,
}

/// The icon of a menu node: a themed icon name, or encoded image bytes.
pub enum MenuIcon {
    Named(String),
    Png(Vec<u8>),
}

/// What a `MenuIcon` holds, as plain values.
pub enum MenuIconModel {
    Named(Seq<char>),
    Png(Seq<u8>),
}

impl View for MenuIcon {
    type V = MenuIconModel;

    open spec fn view(&self) -> MenuIconModel {
        match self {
            MenuIcon::Named(s) => MenuIconModel::Named(s@),
            MenuIcon::Png(b) => MenuIconModel::Png(b@),
        }
    }
}

impl Clone for MenuIcon {
    fn clone(&self) -> (r: Self)
        ensures
            r@ == self@,
    {
        match self {
            MenuIcon::Named(s) => MenuIcon::Named(s.clone()),
            MenuIcon::Png(b) => MenuIcon::Png(b.clone()),
        }
    }
}

/// The view of an optional menu icon.
pub open spec fn menu_icon_view(i: Option<MenuIcon>) -> Option<MenuIconModel> {
    match i {
        Some(x) => Some(x@),
        None => None,
    }
}

/// The icon of a menu node from the name and the image bytes that the
/// menu protocol sends: a non-empty name; else, when no name was sent at
/// all, non-empty image bytes; else none. An empty name hides the bytes.
pub open spec fn menu_icon_of(name: Option<Seq<char>>, data: Option<Seq<u8>>) -> Option<MenuIconModel> {
    match name {
        Some(s) => if s.len() > 0 {
            Some(MenuIconModel::Named(s))
        } else {
            None
        },
        None => match data {
            Some(b) => if b.len() > 0 {
                Some(MenuIconModel::Png(b))
            } else {
                None
            },
            None => None,
        },
    }
}

impl MenuIcon {
    /// Picks a menu node's icon from the protocol's name and image fields.
    pub fn from_fields(name: Option<String>, data: Option<Vec<u8>>) -> (r: Option<MenuIcon>)
        ensures
            menu_icon_view(r) == menu_icon_of(
                match name { Some(s) => Some(s@), None => None },
                match data { Some(b) => Some(b@), None => None },
            ),
    {
        match name {
            Some(s) => {
                if !s.as_str().is_empty() {
                    Some(MenuIcon::Named(s))
                } else {
                    None
                }
            },
            None => match data {
                Some(b) => {
                    if b.len() > 0 {
                        Some(MenuIcon::Png(b))
                    } else {
                        None
                    }
                },
                None => None,
            },
        }
    }
}

/// One node of a tray item's context menu, with its children in order.
pub struct MenuNode {
    pub id: i32,
    pub label: Option<String>,
    pub enabled: bool,
    pub visible: bool,
    pub icon: Option<MenuIcon>,
    pub kind: MenuKind,
    pub children: Vec<MenuNode>,
}

/// One entry of a realized menu.
pub enum MenuEntry {
    /// A clickable leaf; a click activates `node_id` of the menu of the
    /// item at `service_key`.
    Action { label: String, enabled: bool, icon: Option<MenuIcon>, service_key: String, node_id: i32 },
    /// An entry that opens a nested menu.
    Submenu { label: String, icon: Option<MenuIcon>, children: Vec<MenuEntry> },
    /// A visual divider.
    Separator,
    /// The single disabled entry of a menu with nothing to show.
    Placeholder,
}

/// What a `MenuEntry` holds, as plain values.
pub enum EntryModel {
    Action { label: Seq<char>, enabled: bool, icon: Option<MenuIconModel>, service_key: Seq<char>, node_id: i32 },
    Submenu { label: Seq<char>, icon: Option<MenuIconModel>, children: Seq<EntryModel> },
    Separator,
    Placeholder,
}

/// The view of a menu entry.
pub open spec fn entry_view(e: MenuEntry) -> EntryModel
    decreases e,
{
    match e {
        MenuEntry::Action { label, enabled, icon, service_key, node_id } => EntryModel::Action {
            label: label@,
            enabled,
            icon: menu_icon_view(icon),
            service_key: service_key@,
            node_id,
        },
        MenuEntry::Submenu { label, icon, children } => EntryModel::Submenu {
            label: label@,
            icon: menu_icon_view(icon),
            children: entries_view(children@),
        },
        MenuEntry::Separator => EntryModel::Separator,
        MenuEntry::Placeholder => EntryModel::Placeholder,
    }
}

/// The views of a list of menu entries.
pub open spec fn entries_view(s: Seq<MenuEntry>) -> Seq<EntryModel>
    decreases s,
{
    if s.len() == 0 {
        Seq::empty()
    } else {
        entries_view(s.subrange(0, s.len() - 1)).push(entry_view(s[s.len() - 1]))
    }
}

impl View for MenuEntry {
    type V = EntryModel;

    open spec fn view(&self) -> EntryModel {
        entry_view(*self)
    }
}

/// The entry that a node becomes in the menu of the item at `key`, if any:
/// hidden nodes and unlabelled ordinary nodes give none, separators give a
/// divider, labelled leaves give an action bound to `key` and the node's
/// id, and labelled nodes with children give a nested menu.
pub open spec fn node_entry(key: Seq<char>, n: MenuNode) -> Option<EntryModel>
    decreases n,
{
    if !n.visible {
        None
    } else if n.kind is Separator {
        Some(EntryModel::Separator)
    } else if n.label is None || n.label->0@.len() == 0 {
        None
    } else if n.children@.len() == 0 {
        Some(EntryModel::Action {
            label: n.label->0@,
            enabled: n.enabled,
            icon: menu_icon_view(n.icon),
            service_key: key,
            node_id: n.id,
        })
    } else {
        Some(EntryModel::Submenu {
            label: n.label->0@,
            icon: menu_icon_view(n.icon),
            children: with_placeholder(node_entries(key, n.children@)),
        })
    }
}

/// The entries that a list of sibling nodes becomes, in order.
pub open spec fn node_entries(key: Seq<char>, nodes: Seq<MenuNode>) -> Seq<EntryModel>
    decreases nodes,
{
    if nodes.len() == 0 {
        Seq::empty()
    } else {
        let init = node_entries(key, nodes.subrange(0, nodes.len() - 1));
        match node_entry(key, nodes[nodes.len() - 1]) {
            Some(e) => init.push(e),
            None => init,
        }
    }
}

/// A menu level shows its entries, or the placeholder alone when it has none.
pub open spec fn with_placeholder(s: Seq<EntryModel>) -> Seq<EntryModel> {
    if s.len() == 0 {
        seq![EntryModel::Placeholder]
    } else {
        s
    }
}

/// The realization of a whole menu tree for the item at `key`.
pub open spec fn realization_of(key: Seq<char>, nodes: Seq<MenuNode>) -> Seq<EntryModel> {
    with_placeholder(node_entries(key, nodes))
}

/// The view of an optional menu entry.
pub open spec fn entry_opt_view(e: Option<MenuEntry>) -> Option<EntryModel> {
    match e {
        Some(x) => Some(entry_view(x)),
        None => None,
    }
}

fn placeholder_level(entries: Vec<MenuEntry>) -> (r: Vec<MenuEntry>)
    ensures
        entries_view(r@) == with_placeholder(entries_view(entries@)),
{
    if entries.len() == 0 {
        assert(entries_view(entries@) =~= Seq::<EntryModel>::empty());
        let r = vec![MenuEntry::Placeholder];
        assert(r@.subrange(0, 0) =~= Seq::<MenuEntry>::empty());
        assert(entries_view(r@.subrange(0, 0)) =~= Seq::<EntryModel>::empty());
        assert(entry_view(r@[0]) == EntryModel::Placeholder);
        assert(entries_view(r@) =~= seq![EntryModel::Placeholder]);
        r
    } else {
        proof {
            if entries_view(entries@).len() == 0 {
                assert(entries_view(entries@) == entries_view(entries@.subrange(0, entries@.len() - 1)).push(
                    entry_view(entries@[entries@.len() - 1])));
            }
        }
        entries
    }
}

fn realize_node(key: &String, n: &MenuNode) -> (r: Option<MenuEntry>)
    ensures
        entry_opt_view(r) == node_entry(key@, *n),
    decreases n,
{
    if !n.visible {
        return None;
    }
    if n.kind == MenuKind::Separator {
        return Some(MenuEntry::Separator);
    }
    let label: String = match &n.label {
        Some(l) => {
            if l.as_str().is_empty() {
                return None;
            }
            l.clone()
        },
        None => {
            return None;
        },
    };
    let icon: Option<MenuIcon> = match &n.icon {
        Some(i) => Some(i.clone()),
        None => None,
    };
    if n.children.len() == 0 {
        Some(MenuEntry::Action {
            label,
            enabled: n.enabled,
            icon,
            service_key: key.clone(),
            node_id: n.id,
        })
    } else {
        let children = realize_nodes(key, &n.children);
        let children = placeholder_level(children);
        Some(MenuEntry::Submenu { label, icon, children })
    }
}

fn realize_nodes(key: &String, nodes: &Vec<MenuNode>) -> (r: Vec<MenuEntry>)
    ensures
        entries_view(r@) == node_entries(key@, nodes@),
    decreases nodes,
{
    let mut out: Vec<MenuEntry> = Vec::new();
    let mut i: usize = 0;
    assert(nodes@.subrange(0, 0) =~= Seq::<MenuNode>::empty());
    assert(out@ =~= Seq::<MenuEntry>::empty());
    while i < nodes.len()
        invariant
            i <= nodes@.len(),
            entries_view(out@) == node_entries(key@, nodes@.subrange(0, i as int)),
        decreases nodes@.len() - i,
    {
        let e = realize_node(key, &nodes[i]);
        let ghost before = out@;
        proof {
            let s = nodes@.subrange(0, i + 1);
            assert(s.subrange(0, s.len() - 1) =~= nodes@.subrange(0, i as int));
            assert(s[s.len() - 1] == nodes@[i as int]);
        }
        match e {
            Some(entry) => {
                out.push(entry);
                proof {
                    assert(out@.subrange(0, out@.len() - 1) =~= before);
                }
            },
            None => {},
        }
        i = i + 1;
    }
    assert(nodes@.subrange(0, nodes@.len() as int) =~= nodes@);
    out
}

/// The clickable form of one tray item's context menu.
pub struct MenuRealization {
    pub entries: Vec<MenuEntry>,
}

impl View for MenuRealization {
    type V = Seq<EntryModel>;

    open spec fn view(&self) -> Seq<EntryModel> {
        entries_view(self.entries@)
    }
}

impl MenuRealization {
    /// Builds the menu of the item at `service_key` from its menu tree,
    /// depth first: hidden nodes are left out, separators become dividers,
    /// labelled leaves become actions, labelled nodes with children become
    /// nested menus, and a level with nothing to show holds one placeholder.
    pub fn build(service_key: &String, nodes: &Vec<MenuNode>) -> (r: MenuRealization)
        ensures
            r@ == realization_of(service_key@, nodes@),
    {
        let entries = realize_nodes(service_key, nodes);
        MenuRealization { entries: placeholder_level(entries) }
    }
}

} // verus!
