use bladebar::bridge::{initial_events, BridgeWorker, SnapshotEntry, WorkerAction, WorkerInput};
use bladebar::event::TrayEvent;
use bladebar::item::TrayItem;

fn item(id: &str) -> TrayItem {
    TrayItem { id: id.to_string(), title: None, icon: None, tooltip: None }
}

#[test]
fn snapshot_becomes_adds_in_order() {
    let snapshot = vec![
        SnapshotEntry { service_key: "svc:b".to_string(), item: item("b"), menu: None },
        SnapshotEntry { service_key: "svc:a".to_string(), item: item("a"), menu: Some(Vec::new()) },
    ];
    let events = initial_events(snapshot);
    assert_eq!(events.len(), 2);
    assert!(matches!(&events[0], TrayEvent::Add(k, i, None) if k == "svc:b" && i.id == "b"));
    assert!(matches!(&events[1], TrayEvent::Add(k, i, Some(_)) if k == "svc:a" && i.id == "a"));
}

#[test]
fn worker_forwards_until_shutdown() {
    let mut w = BridgeWorker::new();
    assert!(!w.stopped());
    let a = w.step(WorkerInput::Event(TrayEvent::Remove("svc:1".to_string())));
    assert!(matches!(a, WorkerAction::Forward(TrayEvent::Remove(ref k)) if k == "svc:1"));
    assert!(matches!(w.step(WorkerInput::Shutdown), WorkerAction::Stop));
    assert!(w.stopped());
    let after = w.step(WorkerInput::Event(TrayEvent::Remove("svc:2".to_string())));
    assert!(matches!(after, WorkerAction::Stop));
}

#[test]
fn worker_stops_when_the_stream_ends_or_the_consumer_leaves() {
    let mut w = BridgeWorker::new();
    assert!(matches!(w.step(WorkerInput::StreamEnded), WorkerAction::Stop));
    assert!(w.stopped());
    let mut v = BridgeWorker::new();
    assert!(matches!(v.step(WorkerInput::ConsumerGone), WorkerAction::Stop));
    assert!(v.stopped());
}
