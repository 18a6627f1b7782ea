use bladebar::menu::{MenuEntry, MenuIcon, MenuKind, MenuNode, MenuRealization};

fn node(id: i32, label: Option<&str>, kind: MenuKind, children: Vec<MenuNode>) -> MenuNode {
    MenuNode {
        id,
        label: label.map(|l| l.to_string()),
        enabled: true,
        visible: true,
        icon: None,
        kind,
        children,
    }
}

#[test]
fn realization_translates_each_kind_of_node() {
    let mut hidden = node(2, Some("Hidden"), MenuKind::Standard, Vec::new());
    hidden.visible = false;
    let mut disabled = node(3, Some("Off"), MenuKind::Standard, Vec::new());
    disabled.enabled = false;
    disabled.icon = Some(MenuIcon::Named("edit".to_string()));
    let tree = vec![
        node(1, Some("Open"), MenuKind::Standard, Vec::new()),
        hidden,
        node(4, None, MenuKind::Separator, Vec::new()),
        disabled,
        node(5, Some("More"), MenuKind::Standard, vec![node(6, Some("Deep"), MenuKind::Standard, Vec::new())]),
        node(7, Some(""), MenuKind::Standard, Vec::new()),
        node(8, None, MenuKind::Standard, Vec::new()),
    ];
    let r = MenuRealization::build(&"svc:1".to_string(), &tree);
    assert_eq!(r.entries.len(), 4);
    match &r.entries[0] {
        MenuEntry::Action { label, enabled, icon, service_key, node_id } => {
            assert_eq!(label, "Open");
            assert!(*enabled);
            assert!(icon.is_none());
            assert_eq!(service_key, "svc:1");
            assert_eq!(*node_id, 1);
        },
        _ => panic!("expected an action"),
    }
    assert!(matches!(r.entries[1], MenuEntry::Separator));
    match &r.entries[2] {
        MenuEntry::Action { label, enabled, icon, node_id, .. } => {
            assert_eq!(label, "Off");
            assert!(!*enabled);
            assert!(matches!(icon, Some(MenuIcon::Named(n)) if n == "edit"));
            assert_eq!(*node_id, 3);
        },
        _ => panic!("expected an action"),
    }
    match &r.entries[3] {
        MenuEntry::Submenu { label, children, .. } => {
            assert_eq!(label, "More");
            assert_eq!(children.len(), 1);
            assert!(matches!(&children[0], MenuEntry::Action { label, node_id: 6, .. } if label == "Deep"));
        },
        _ => panic!("expected a submenu"),
    }
}

#[test]
fn empty_menu_gets_a_placeholder() {
    let r = MenuRealization::build(&"svc:1".to_string(), &Vec::new());
    assert_eq!(r.entries.len(), 1);
    assert!(matches!(r.entries[0], MenuEntry::Placeholder));
}

#[test]
fn menu_of_hidden_nodes_gets_a_placeholder() {
    let mut a = node(1, Some("A"), MenuKind::Standard, Vec::new());
    a.visible = false;
    let mut b = node(2, None, MenuKind::Separator, Vec::new());
    b.visible = false;
    let r = MenuRealization::build(&"svc:1".to_string(), &vec![a, b]);
    assert_eq!(r.entries.len(), 1);
    assert!(matches!(r.entries[0], MenuEntry::Placeholder));
}

#[test]
fn submenu_of_hidden_children_gets_a_placeholder() {
    let mut child = node(2, Some("Gone"), MenuKind::Standard, Vec::new());
    child.visible = false;
    let r = MenuRealization::build(
        &"svc:1".to_string(),
        &vec![node(1, Some("Parent"), MenuKind::Standard, vec![child])],
    );
    match &r.entries[0] {
        MenuEntry::Submenu { children, .. } => {
            assert_eq!(children.len(), 1);
            assert!(matches!(children[0], MenuEntry::Placeholder));
        },
        _ => panic!("expected a submenu"),
    }
}

#[test]
fn menu_icon_prefers_a_non_empty_name() {
    let named = MenuIcon::from_fields(Some("open".to_string()), Some(vec![1, 2]));
    assert!(matches!(named, Some(MenuIcon::Named(n)) if n == "open"));
    let data = MenuIcon::from_fields(None, Some(vec![9, 8, 7]));
    assert!(matches!(data, Some(MenuIcon::Png(b)) if b == vec![9, 8, 7]));
    assert!(MenuIcon::from_fields(Some(String::new()), Some(vec![1])).is_none());
    assert!(MenuIcon::from_fields(None, Some(Vec::new())).is_none());
    assert!(MenuIcon::from_fields(None, None).is_none());
}
