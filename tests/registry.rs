use bladebar::event::{ItemUpdate, TrayEvent};
use bladebar::icon::IconSource;
use bladebar::item::{Tooltip, TrayItem};
use bladebar::menu::{MenuEntry, MenuKind, MenuNode};
use bladebar::registry::{TrayRegistry, UiEffect};

fn item(id: &str, title: Option<&str>) -> TrayItem {
    TrayItem { id: id.to_string(), title: title.map(|t| t.to_string()), icon: None, tooltip: None }
}

fn leaf(id: i32, label: &str) -> MenuNode {
    MenuNode {
        id,
        label: Some(label.to_string()),
        enabled: true,
        visible: true,
        icon: None,
        kind: MenuKind::Standard,
        children: Vec::new(),
    }
}

fn first_label(r: &TrayRegistry<u32>, key: &str) -> String {
    match &r.get_menu_for_service_key(key).unwrap().entries[0] {
        MenuEntry::Action { label, .. } => label.clone(),
        _ => panic!("expected an action"),
    }
}

#[test]
fn add_then_update_icon_keeps_title() {
    let mut r: TrayRegistry<u32> = TrayRegistry::new();
    r.apply(TrayEvent::Add("svc:1".to_string(), item("app", Some("A")), None));
    let effect = r.apply(TrayEvent::Update(
        "svc:1".to_string(),
        ItemUpdate::Icon(Some(IconSource::Named("X".to_string()))),
    ));
    assert!(matches!(effect, UiEffect::Refresh(ref k) if k == "svc:1"));
    let stored = r.get_item("svc:1").unwrap();
    assert!(matches!(&stored.icon, Some(IconSource::Named(n)) if n == "X"));
    assert_eq!(stored.title.as_deref(), Some("A"));
    assert_eq!(stored.id, "app");
}

#[test]
fn shared_item_id_resolves_to_latest_then_to_none() {
    let mut r: TrayRegistry<u32> = TrayRegistry::new();
    r.apply(TrayEvent::Add("svc:1".to_string(), item("app", None), None));
    r.apply(TrayEvent::Add("svc:2".to_string(), item("app", None), None));
    assert_eq!(r.get_service_key_for_item("app").as_deref(), Some("svc:2"));
    r.apply(TrayEvent::Remove("svc:2".to_string()));
    assert_eq!(r.get_service_key_for_item("app"), None);
    assert!(r.get_item("svc:1").is_some());
}

#[test]
fn removing_an_unknown_key_changes_nothing() {
    let mut r: TrayRegistry<u32> = TrayRegistry::new();
    r.apply(TrayEvent::Add("svc:1".to_string(), item("app", None), Some(vec![leaf(1, "Open")])));
    let effect = r.apply(TrayEvent::Remove("svc:x".to_string()));
    assert!(matches!(effect, UiEffect::Ignored(ref k) if k == "svc:x"));
    assert!(r.get_item("svc:1").is_some());
    assert!(r.get_menu_for_service_key("svc:1").is_some());
    assert_eq!(r.get_service_key_for_item("app").as_deref(), Some("svc:1"));
}

#[test]
fn removing_twice_is_a_no_op_the_second_time() {
    let mut r: TrayRegistry<u32> = TrayRegistry::new();
    r.apply(TrayEvent::Add("svc:1".to_string(), item("app", None), Some(vec![leaf(1, "Open")])));
    assert!(r.attach_handle("svc:1".to_string(), 7));
    let first = r.apply(TrayEvent::Remove("svc:1".to_string()));
    assert!(matches!(first, UiEffect::TearDown(ref k, Some(7)) if k == "svc:1"));
    assert!(r.get_item("svc:1").is_none());
    assert!(r.get_menu_for_service_key("svc:1").is_none());
    assert!(r.get_handle("svc:1").is_none());
    assert_eq!(r.get_service_key_for_item("app"), None);
    let second = r.apply(TrayEvent::Remove("svc:1".to_string()));
    assert!(matches!(second, UiEffect::Ignored(_)));
}

#[test]
fn adding_twice_keeps_one_menu() {
    let mut r: TrayRegistry<u32> = TrayRegistry::new();
    let first = r.apply(TrayEvent::Add("svc:1".to_string(), item("app", None), Some(vec![leaf(1, "Open")])));
    assert!(matches!(first, UiEffect::Create(_)));
    let second = r.apply(TrayEvent::Add("svc:1".to_string(), item("app", None), Some(vec![leaf(2, "Quit")])));
    assert!(matches!(second, UiEffect::Refresh(_)));
    let menu = r.get_menu_for_service_key("svc:1").unwrap();
    assert_eq!(menu.entries.len(), 1);
    assert_eq!(first_label(&r, "svc:1"), "Open");
}

#[test]
fn last_add_of_an_id_wins() {
    let mut r: TrayRegistry<u32> = TrayRegistry::new();
    assert!(r.add("svc:a".to_string(), item("same", None), None));
    assert!(r.add("svc:b".to_string(), item("same", None), None));
    assert_eq!(r.get_service_key_for_item("same").as_deref(), Some("svc:b"));
}

#[test]
fn ensure_built_keeps_the_first_tree() {
    let mut r: TrayRegistry<u32> = TrayRegistry::new();
    r.add("svc:1".to_string(), item("app", None), None);
    assert!(r.get_menu_for_service_key("svc:1").is_none());
    assert!(r.ensure_built(&"svc:1".to_string(), &vec![leaf(1, "First")]));
    assert!(!r.ensure_built(&"svc:1".to_string(), &vec![leaf(2, "Second"), leaf(3, "Third")]));
    assert_eq!(r.get_menu_for_service_key("svc:1").unwrap().entries.len(), 1);
    assert_eq!(first_label(&r, "svc:1"), "First");
}

#[test]
fn ensure_built_ignores_unknown_keys() {
    let mut r: TrayRegistry<u32> = TrayRegistry::new();
    assert!(!r.ensure_built(&"svc:none".to_string(), &vec![leaf(1, "Open")]));
    assert!(r.get_menu_for_service_key("svc:none").is_none());
}

#[test]
fn menu_update_builds_a_missing_menu_only() {
    let mut r: TrayRegistry<u32> = TrayRegistry::new();
    r.add("svc:1".to_string(), item("app", None), None);
    assert!(r.update(&"svc:1".to_string(), ItemUpdate::Menu(vec![leaf(4, "Late")])));
    assert_eq!(first_label(&r, "svc:1"), "Late");
    assert!(r.update(&"svc:1".to_string(), ItemUpdate::Menu(vec![leaf(5, "Later")])));
    assert_eq!(first_label(&r, "svc:1"), "Late");
}

#[test]
fn update_of_unknown_key_is_ignored() {
    let mut r: TrayRegistry<u32> = TrayRegistry::new();
    let effect = r.apply(TrayEvent::Update("svc:9".to_string(), ItemUpdate::Title(Some("T".to_string()))));
    assert!(matches!(effect, UiEffect::Ignored(ref k) if k == "svc:9"));
    assert!(r.get_item("svc:9").is_none());
}

#[test]
fn title_and_tooltip_updates_replace_fields() {
    let mut r: TrayRegistry<u32> = TrayRegistry::new();
    r.add("svc:1".to_string(), item("app", Some("Old")), None);
    r.update(&"svc:1".to_string(), ItemUpdate::Title(Some("New".to_string())));
    r.update(
        &"svc:1".to_string(),
        ItemUpdate::Tooltip(Some(Tooltip { title: "Tip".to_string(), description: "More".to_string() })),
    );
    r.update(&"svc:1".to_string(), ItemUpdate::Other);
    let stored = r.get_item("svc:1").unwrap();
    assert_eq!(stored.title.as_deref(), Some("New"));
    let tip = stored.tooltip.as_ref().unwrap();
    assert_eq!(tip.title, "Tip");
    assert_eq!(tip.description, "More");
    assert_eq!(stored.id, "app");
}

#[test]
fn replaying_a_stream_folds_it_in_order() {
    let mut r: TrayRegistry<u32> = TrayRegistry::new();
    let events = vec![
        TrayEvent::Add("svc:1".to_string(), item("one", Some("A")), Some(vec![leaf(1, "Open")])),
        TrayEvent::Add("svc:2".to_string(), item("two", Some("B")), None),
        TrayEvent::Update("svc:1".to_string(), ItemUpdate::Title(Some("A2".to_string()))),
        TrayEvent::Remove("svc:2".to_string()),
        TrayEvent::Add("svc:3".to_string(), item("three", None), None),
        TrayEvent::Update("svc:2".to_string(), ItemUpdate::Title(Some("gone".to_string()))),
        TrayEvent::Add("svc:2".to_string(), item("two", Some("B2")), None),
    ];
    for e in events {
        r.apply(e);
    }
    assert_eq!(r.get_item("svc:1").unwrap().title.as_deref(), Some("A2"));
    assert_eq!(r.get_item("svc:2").unwrap().title.as_deref(), Some("B2"));
    assert!(r.get_item("svc:3").is_some());
    assert!(r.get_menu_for_service_key("svc:1").is_some());
    assert!(r.get_menu_for_service_key("svc:2").is_none());
    assert_eq!(r.get_service_key_for_item("two").as_deref(), Some("svc:2"));
    assert_eq!(r.get_service_key_for_item("three").as_deref(), Some("svc:3"));
}

#[test]
fn readding_under_a_new_id_drops_the_old_id() {
    let mut r: TrayRegistry<u32> = TrayRegistry::new();
    r.add("svc:1".to_string(), item("before", None), None);
    assert!(!r.add("svc:1".to_string(), item("after", None), None));
    assert_eq!(r.get_service_key_for_item("before"), None);
    assert_eq!(r.get_service_key_for_item("after").as_deref(), Some("svc:1"));
}

#[test]
fn removing_an_older_holder_of_an_id_keeps_the_newer_mapping() {
    let mut r: TrayRegistry<u32> = TrayRegistry::new();
    r.add("svc:1".to_string(), item("app", None), None);
    r.add("svc:2".to_string(), item("app", None), None);
    r.remove(&"svc:1".to_string());
    assert_eq!(r.get_service_key_for_item("app").as_deref(), Some("svc:2"));
}

#[test]
fn handles_attach_only_to_live_items() {
    let mut r: TrayRegistry<u32> = TrayRegistry::new();
    assert!(!r.attach_handle("svc:1".to_string(), 1));
    assert!(r.get_handle("svc:1").is_none());
    r.add("svc:1".to_string(), item("app", None), None);
    assert!(r.attach_handle("svc:1".to_string(), 2));
    assert_eq!(r.get_handle("svc:1"), Some(&2));
    let teardown = r.remove(&"svc:1".to_string());
    assert_eq!(teardown, Some(2));
    assert_eq!(r.remove(&"svc:1".to_string()), None);
}
