use chat_server::bus::{BusError, EventBus, Recv, BUS_CAPACITY};
use chat_server::event::DomainEvent;

fn scanned(d: &str) -> DomainEvent {
    DomainEvent::QRScanned { device_id: d.to_string() }
}

#[test]
fn publish_without_subscribers_is_no_failure() {
    let mut bus = EventBus::new(BUS_CAPACITY);
    assert_eq!(bus.publish(scanned("a")), Ok(0));
    assert_eq!(bus.receiver_count(), 0);
}

#[test]
fn subscriber_starts_at_head() {
    let mut bus = EventBus::new(BUS_CAPACITY);
    bus.publish(scanned("before")).unwrap();
    let id = bus.subscribe().unwrap();
    assert_eq!(bus.recv(id), Recv::Empty);
    assert_eq!(bus.publish(scanned("after")), Ok(1));
    assert_eq!(bus.recv(id), Recv::Event(scanned("after")));
    assert_eq!(bus.recv(id), Recv::Empty);
}

#[test]
fn events_arrive_in_publication_order() {
    let mut bus = EventBus::new(BUS_CAPACITY);
    let a = bus.subscribe().unwrap();
    let b = bus.subscribe().unwrap();
    assert_ne!(a, b);
    bus.publish(scanned("A")).unwrap();
    bus.publish(scanned("B")).unwrap();
    for id in [a, b] {
        assert_eq!(bus.recv(id), Recv::Event(scanned("A")));
        assert_eq!(bus.recv(id), Recv::Event(scanned("B")));
        assert_eq!(bus.recv(id), Recv::Empty);
    }
}

#[test]
fn stalled_subscriber_lags_once_then_reads_new_events() {
    let mut bus = EventBus::new(BUS_CAPACITY);
    let id = bus.subscribe().unwrap();
    for i in 0..(BUS_CAPACITY + 4) {
        bus.publish(scanned(&format!("old{}", i))).unwrap();
    }
    assert_eq!(bus.recv(id), Recv::Lagged((BUS_CAPACITY + 4) as u64));
    assert_eq!(bus.recv(id), Recv::Empty);
    bus.publish(scanned("new")).unwrap();
    assert_eq!(bus.recv(id), Recv::Event(scanned("new")));
    assert_eq!(bus.recv(id), Recv::Empty);
}

#[test]
fn subscriber_within_window_does_not_lag() {
    let mut bus = EventBus::new(2);
    let id = bus.subscribe().unwrap();
    bus.publish(scanned("1")).unwrap();
    bus.publish(scanned("2")).unwrap();
    assert_eq!(bus.recv(id), Recv::Event(scanned("1")));
    bus.publish(scanned("3")).unwrap();
    assert_eq!(bus.recv(id), Recv::Event(scanned("2")));
    assert_eq!(bus.recv(id), Recv::Event(scanned("3")));
}

#[test]
fn ring_keeps_only_capacity_events() {
    let mut bus = EventBus::new(2);
    let id = bus.subscribe().unwrap();
    bus.publish(scanned("1")).unwrap();
    bus.publish(scanned("2")).unwrap();
    bus.publish(scanned("3")).unwrap();
    assert_eq!(bus.recv(id), Recv::Lagged(3));
    assert_eq!(bus.recv(id), Recv::Empty);
}

#[test]
fn unsubscribed_cursor_is_closed() {
    let mut bus = EventBus::new(BUS_CAPACITY);
    let id = bus.subscribe().unwrap();
    assert!(bus.is_subscribed(id));
    assert!(bus.unsubscribe(id));
    assert!(!bus.unsubscribe(id));
    bus.publish(scanned("x")).unwrap();
    assert_eq!(bus.recv(id), Recv::Closed);
    assert_eq!(bus.recv(999), Recv::Closed);
    assert_ne!(bus.publish(scanned("y")), Err(BusError::Exhausted));
}
