use clawcontrol::hub::{BroadcastHub, Event};

fn ev(id: &str) -> Event {
    Event::TaskCreated { task_id: id.to_string() }
}

#[test]
fn subscriber_receives_published_events_in_order() {
    let mut hub = BroadcastHub::new(100);
    let id = hub.subscribe();
    hub.publish(&ev("1"));
    hub.publish(&ev("2"));
    hub.publish(&ev("3"));
    assert_eq!(hub.recv(id), Some(ev("1")));
    assert_eq!(hub.recv(id), Some(ev("2")));
    assert_eq!(hub.recv(id), Some(ev("3")));
    assert_eq!(hub.recv(id), None);
}

#[test]
fn publish_with_zero_subscribers_neither_blocks_nor_errors() {
    let mut hub = BroadcastHub::new(100);
    hub.publish(&ev("lost"));
    let id = hub.subscribe();
    assert_eq!(hub.recv(id), None);
}

#[test]
fn late_subscriber_sees_only_later_events() {
    let mut hub = BroadcastHub::new(100);
    let early = hub.subscribe();
    hub.publish(&ev("before"));
    let late = hub.subscribe();
    hub.publish(&ev("after"));
    assert_eq!(hub.recv(late), Some(ev("after")));
    assert_eq!(hub.recv(late), None);
    assert_eq!(hub.recv(early), Some(ev("before")));
    assert_eq!(hub.recv(early), Some(ev("after")));
}

#[test]
fn full_queue_drops_the_oldest_pending_event() {
    let mut hub = BroadcastHub::new(2);
    let id = hub.subscribe();
    hub.publish(&ev("1"));
    hub.publish(&ev("2"));
    hub.publish(&ev("3"));
    assert_eq!(hub.recv(id), Some(ev("2")));
    assert_eq!(hub.recv(id), Some(ev("3")));
    assert_eq!(hub.recv(id), None);
}

#[test]
fn disconnect_silences_one_subscriber_only() {
    let mut hub = BroadcastHub::new(10);
    let a = hub.subscribe();
    let b = hub.subscribe();
    hub.publish(&ev("1"));
    hub.disconnect(a);
    hub.publish(&ev("2"));
    assert_eq!(hub.recv(b), Some(ev("1")));
    assert_eq!(hub.recv(b), Some(ev("2")));
    assert_eq!(hub.recv(b), None);
}

#[test]
fn every_event_variant_carries_its_identifiers() {
    let e = Event::StatusChanged {
        task_id: "t-1".to_string(),
        status: clawcontrol::models::TaskStatus::Review,
    };
    assert_eq!(e.clone(), e);
    let variants = vec![
        Event::TaskCreated { task_id: "t".to_string() },
        Event::CommentAdded { task_id: "t".to_string() },
        Event::AnnouncementCreated,
        Event::TaskActivityAdded { task_id: "t".to_string() },
        Event::DeliverableAdded { task_id: "t".to_string() },
        Event::TaskRouted { task_id: "t".to_string() },
    ];
    for v in &variants {
        assert_eq!(v.clone(), *v);
    }
}
