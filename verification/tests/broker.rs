use watering_system::mqtt::{
    Delivery, Mailbox, MqttFacade, MqttFacadeConfig, MqttMessage, WorkerAction, WorkerEvent,
    WorkerState,
};

fn facade() -> MqttFacade {
    MqttFacade::new(MqttFacadeConfig::new(
        [192, 168, 1, 10],
        1883,
        "MyDevice",
        "homeassistant/device/plant/pump",
    ))
}

fn numbered(n: usize) -> MqttMessage {
    MqttMessage::new(&format!("topic/{}", n), &format!("payload {}", n)).unwrap()
}

#[test]
fn message_keeps_topic_and_payload() {
    let m = MqttMessage::new("a/b", "{\"x\":1}").unwrap();
    assert_eq!(m.topic.as_str(), "a/b");
    assert_eq!(m.content.as_str(), "{\"x\":1}");
    let empty = MqttMessage::new("", "").unwrap();
    assert_eq!(empty.topic.as_str(), "");
    assert_eq!(empty.content.as_str(), "");
}

#[test]
fn topic_of_65_bytes_is_rejected() {
    let topic = "t".repeat(65);
    assert!(MqttMessage::new(&topic, "x").is_none());
    let topic = "t".repeat(64);
    assert_eq!(MqttMessage::new(&topic, "x").unwrap().topic.len(), 64);
}

#[test]
fn payload_of_513_bytes_is_rejected() {
    let payload = "p".repeat(513);
    assert!(MqttMessage::new("t", &payload).is_none());
    let payload = "p".repeat(512);
    assert_eq!(MqttMessage::new("t", &payload).unwrap().content.len(), 512);
}

#[test]
fn limits_count_bytes_not_characters() {
    // 33 characters of two bytes each
    let topic = "\u{e9}".repeat(33);
    assert!(MqttMessage::new(&topic, "x").is_none());
    let topic = "\u{e9}".repeat(32);
    assert!(MqttMessage::new(&topic, "x").is_some());
    let payload = "\u{20ac}".repeat(171);
    assert!(MqttMessage::new("t", &payload).is_none());
    let payload = "\u{20ac}".repeat(170);
    assert!(MqttMessage::new("t", &payload).is_some());
    // four bytes each
    let payload = "\u{1f331}".repeat(129);
    assert!(MqttMessage::new("t", &payload).is_none());
    let payload = "\u{1f331}".repeat(128);
    assert_eq!(MqttMessage::new("t", &payload).unwrap().content.len(), 512);
    let topic = "\u{1f331}".repeat(16);
    assert_eq!(MqttMessage::new(&topic, "x").unwrap().topic.len(), 64);
}

#[test]
fn sixth_message_is_dropped() {
    let mut mailbox = Mailbox::new();
    for n in 0..5 {
        assert!(mailbox.enqueue(numbered(n)));
    }
    assert_eq!(mailbox.len(), 5);
    assert!(!mailbox.enqueue(numbered(5)));
    assert_eq!(mailbox.len(), 5);
    for n in 0..5 {
        let m = mailbox.try_dequeue().unwrap();
        assert_eq!(m.topic.as_str(), format!("topic/{}", n));
        assert_eq!(m.content.as_str(), format!("payload {}", n));
    }
    assert!(mailbox.try_dequeue().is_none());
    assert!(mailbox.is_empty());
}

#[test]
fn mailbox_is_first_in_first_out() {
    let mut mailbox = Mailbox::new();
    assert!(mailbox.is_empty());
    assert_eq!(mailbox.len(), 0);
    assert!(mailbox.try_dequeue().is_none());
    assert!(mailbox.enqueue(numbered(1)));
    assert!(mailbox.enqueue(numbered(2)));
    assert!(!mailbox.is_empty());
    assert_eq!(mailbox.try_dequeue().unwrap().topic.as_str(), "topic/1");
    assert!(mailbox.enqueue(numbered(3)));
    assert_eq!(mailbox.try_dequeue().unwrap().topic.as_str(), "topic/2");
    assert_eq!(mailbox.try_dequeue().unwrap().topic.as_str(), "topic/3");
    assert!(mailbox.is_empty());
}

#[test]
fn room_returns_after_a_dequeue() {
    let mut mailbox = Mailbox::new();
    for n in 0..5 {
        assert!(mailbox.enqueue(numbered(n)));
    }
    assert!(!mailbox.enqueue(numbered(9)));
    assert_eq!(mailbox.try_dequeue().unwrap().topic.as_str(), "topic/0");
    assert!(mailbox.enqueue(numbered(7)));
    assert_eq!(mailbox.len(), 5);
}

#[test]
fn facade_sends_and_polls_through_mailboxes() {
    let mut f = facade();
    let mut outbound = Mailbox::new();
    let mut inbound = Mailbox::new();
    assert!(f.poll_message(&mut inbound).is_none());
    for n in 0..5 {
        assert!(f.send_message(&mut outbound, numbered(n)));
    }
    assert!(!f.send_message(&mut outbound, numbered(5)));
    assert_eq!(outbound.len(), 5);
    assert!(inbound.enqueue(numbered(42)));
    let m = f.poll_message(&mut inbound).unwrap();
    assert_eq!(m.content.as_str(), "payload 42");
    assert!(f.poll_message(&mut inbound).is_none());
}

#[test]
fn facade_knows_its_command_topic() {
    assert_eq!(facade().command_topic(), "homeassistant/device/plant/pump");
}

#[test]
fn config_keeps_what_it_was_given() {
    let c = MqttFacadeConfig::new([10, 0, 0, 2], 8883, "dev", "cmd/topic");
    assert_eq!(c.broker_ip, [10, 0, 0, 2]);
    assert_eq!(c.broker_port, 8883);
    assert_eq!(c.client_id, "dev");
    assert_eq!(c.topic_id.as_str(), "cmd/topic");
}

#[test]
fn delivery_queues_text() {
    let f = facade();
    let mut inbound = Mailbox::new();
    assert_eq!(f.deliver(&mut inbound, "cmd", b"ON"), Delivery::Queued);
    assert_eq!(f.deliver(&mut inbound, "cmd", "gr\u{fc}n".as_bytes()), Delivery::Queued);
    let m = inbound.try_dequeue().unwrap();
    assert_eq!(m.topic.as_str(), "cmd");
    assert_eq!(m.content.as_str(), "ON");
    assert_eq!(inbound.try_dequeue().unwrap().content.as_str(), "gr\u{fc}n");
}

#[test]
fn delivery_drops_what_is_not_text() {
    let f = facade();
    let mut inbound = Mailbox::new();
    assert_eq!(f.deliver(&mut inbound, "cmd", &[0xFF, 0xFE]), Delivery::DroppedNotText);
    assert_eq!(f.deliver(&mut inbound, "cmd", &[0xC3]), Delivery::DroppedNotText);
    assert!(inbound.is_empty());
}

#[test]
fn delivery_drops_oversize() {
    let f = facade();
    let mut inbound = Mailbox::new();
    assert_eq!(f.deliver(&mut inbound, "cmd", &[b'x'; 513]), Delivery::DroppedOversize);
    let topic = "t".repeat(65);
    assert_eq!(f.deliver(&mut inbound, &topic, b"ON"), Delivery::DroppedOversize);
    assert!(inbound.is_empty());
    assert_eq!(f.deliver(&mut inbound, "cmd", &[b'x'; 512]), Delivery::Queued);
}

#[test]
fn delivery_drops_when_full() {
    let f = facade();
    let mut inbound = Mailbox::new();
    for _ in 0..5 {
        assert_eq!(f.deliver(&mut inbound, "cmd", b"ON"), Delivery::Queued);
    }
    assert_eq!(f.deliver(&mut inbound, "cmd", b"OFF"), Delivery::DroppedFull);
    assert_eq!(inbound.len(), 5);
    // what is wrong with the message itself is reported first
    assert_eq!(f.deliver(&mut inbound, "cmd", &[0xFF]), Delivery::DroppedNotText);
    assert_eq!(f.deliver(&mut inbound, "cmd", &[b'x'; 600]), Delivery::DroppedOversize);
}

fn ready(mailbox_empty: bool, link_up: bool, configured: bool) -> WorkerEvent {
    WorkerEvent::Readiness { mailbox_empty, link_up, configured }
}

const RETRY: (WorkerState, WorkerAction) =
    (WorkerState::Idle, WorkerAction::CheckReadiness { after_ms: 500 });

#[test]
fn publisher_cycle() {
    let f = facade();
    let next = f.run_publisher_worker(WorkerState::Idle, ready(false, true, true));
    assert_eq!(
        next,
        (
            WorkerState::Connecting,
            WorkerAction::Connect { address: [192, 168, 1, 10], port: 1883, after_ms: 100 }
        )
    );
    let next = f.run_publisher_worker(next.0, WorkerEvent::Connected { ok: true });
    assert_eq!(next, (WorkerState::Handshaking, WorkerAction::Handshake { protocol_version: 5, client_id: "MyDevice" }));
    let next = f.run_publisher_worker(next.0, WorkerEvent::Handshaken { ok: true });
    assert_eq!(
        next,
        (WorkerState::Exchanging, WorkerAction::PublishNext { qos: 1, retain: false })
    );
    let next = f.run_publisher_worker(next.0, WorkerEvent::Published { ok: true });
    assert_eq!(next, (WorkerState::Idle, WorkerAction::CheckReadiness { after_ms: 0 }));
}

#[test]
fn publisher_waits_until_ready() {
    let f = facade();
    assert_eq!(f.run_publisher_worker(WorkerState::Idle, ready(true, true, true)), RETRY);
    assert_eq!(f.run_publisher_worker(WorkerState::Idle, ready(false, false, true)), RETRY);
    assert_eq!(f.run_publisher_worker(WorkerState::Idle, ready(false, true, false)), RETRY);
}

#[test]
fn publisher_retries_after_any_failure() {
    let f = facade();
    assert_eq!(
        f.run_publisher_worker(WorkerState::Connecting, WorkerEvent::Connected { ok: false }),
        RETRY
    );
    assert_eq!(
        f.run_publisher_worker(WorkerState::Handshaking, WorkerEvent::Handshaken { ok: false }),
        RETRY
    );
    assert_eq!(
        f.run_publisher_worker(WorkerState::Exchanging, WorkerEvent::Published { ok: false }),
        RETRY
    );
    // a report that does not belong to the step counts as a failure
    assert_eq!(
        f.run_publisher_worker(WorkerState::Connecting, WorkerEvent::Published { ok: true }),
        RETRY
    );
    assert_eq!(
        f.run_publisher_worker(WorkerState::Subscribing, WorkerEvent::Subscribed { ok: true }),
        RETRY
    );
}

#[test]
fn receiver_cycle() {
    let f = facade();
    // the receiver does not look at the mailbox
    let next = f.run_receiver_worker(WorkerState::Idle, ready(true, true, true));
    assert_eq!(
        next,
        (
            WorkerState::Connecting,
            WorkerAction::Connect { address: [192, 168, 1, 10], port: 1883, after_ms: 100 }
        )
    );
    let next = f.run_receiver_worker(next.0, WorkerEvent::Connected { ok: true });
    assert_eq!(next, (WorkerState::Handshaking, WorkerAction::Handshake { protocol_version: 5, client_id: "MyDevice" }));
    let next = f.run_receiver_worker(next.0, WorkerEvent::Handshaken { ok: true });
    assert_eq!(next, (WorkerState::Subscribing, WorkerAction::Subscribe));
    let next = f.run_receiver_worker(next.0, WorkerEvent::Subscribed { ok: true });
    assert_eq!(next, (WorkerState::Exchanging, WorkerAction::Receive));
    let next = f.run_receiver_worker(next.0, WorkerEvent::Received { ok: true });
    assert_eq!(next, (WorkerState::Idle, WorkerAction::CheckReadiness { after_ms: 0 }));
}

#[test]
fn receiver_failures() {
    let f = facade();
    let soon = (WorkerState::Idle, WorkerAction::CheckReadiness { after_ms: 100 });
    assert_eq!(f.run_receiver_worker(WorkerState::Idle, ready(false, false, true)), RETRY);
    assert_eq!(f.run_receiver_worker(WorkerState::Idle, ready(false, true, false)), RETRY);
    assert_eq!(
        f.run_receiver_worker(WorkerState::Connecting, WorkerEvent::Connected { ok: false }),
        RETRY
    );
    assert_eq!(
        f.run_receiver_worker(WorkerState::Handshaking, WorkerEvent::Handshaken { ok: false }),
        RETRY
    );
    assert_eq!(
        f.run_receiver_worker(WorkerState::Subscribing, WorkerEvent::Subscribed { ok: false }),
        soon
    );
    assert_eq!(
        f.run_receiver_worker(WorkerState::Exchanging, WorkerEvent::Received { ok: false }),
        soon
    );
    assert_eq!(
        f.run_receiver_worker(WorkerState::Exchanging, WorkerEvent::Published { ok: true }),
        RETRY
    );
}
