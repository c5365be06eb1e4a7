use cloud_pubsub::message::EncodedMessage;
use cloud_pubsub::tracker::AckTracker;

fn message(ack_id: &str, attempt: u64) -> EncodedMessage {
    EncodedMessage {
        ack_id: ack_id.to_string(),
        message_id: format!("m-{}", ack_id),
        data: "payload".to_string(),
        publish_time: "2020-01-01T00:00:00Z".to_string(),
        ordering_key: String::new(),
        attempt,
    }
}

#[test]
fn pulled_messages_enter_as_live_deliveries() {
    let mut tracker = AckTracker::new();
    tracker.track_pulled(&vec![message("a1", 1), message("a2", 3)], 100);
    assert_eq!(tracker.entries.len(), 2);
    assert_eq!(tracker.entries[0].ack_id, "a1");
    assert_eq!(tracker.entries[0].deadline, 100);
    assert_eq!(tracker.entries[0].attempt, 1);
    assert!(!tracker.entries[0].acked);
    assert_eq!(tracker.entries[1].attempt, 3);
}

#[test]
fn acknowledging_twice_is_idempotent() {
    let mut tracker = AckTracker::new();
    tracker.track_pulled(&vec![message("a1", 1), message("a2", 1)], 100);
    let first = tracker.acknowledge(&"a1".to_string());
    assert!(first);
    assert!(tracker.entries[0].acked);
    assert!(!tracker.entries[1].acked);
    let before: Vec<(String, bool)> = tracker
        .entries
        .iter()
        .map(|d| (d.ack_id.clone(), d.acked))
        .collect();
    let second = tracker.acknowledge(&"a1".to_string());
    assert!(!second);
    let after: Vec<(String, bool)> = tracker
        .entries
        .iter()
        .map(|d| (d.ack_id.clone(), d.acked))
        .collect();
    assert_eq!(before, after);
}

#[test]
fn acknowledging_an_unknown_id_is_a_no_op() {
    let mut tracker = AckTracker::new();
    tracker.track_pulled(&vec![message("a1", 1)], 100);
    assert!(!tracker.acknowledge(&"missing".to_string()));
    assert_eq!(tracker.entries.len(), 1);
    assert!(!tracker.entries[0].acked);
}

#[test]
fn extending_a_deadline_moves_only_the_live_delivery() {
    let mut tracker = AckTracker::new();
    tracker.track_pulled(&vec![message("a1", 1), message("a2", 1)], 100);
    assert!(tracker.acknowledge(&"a2".to_string()));
    assert!(tracker.extend_deadline(&"a1".to_string(), 250));
    assert!(!tracker.extend_deadline(&"a2".to_string(), 999));
    assert_eq!(tracker.entries[0].deadline, 250);
    assert_eq!(tracker.entries[1].deadline, 100);
}

#[test]
fn expired_ids_are_the_lapsed_live_deliveries() {
    let mut tracker = AckTracker::new();
    tracker.track_pulled(&vec![message("a1", 1), message("a2", 1), message("a3", 1)], 100);
    assert!(tracker.acknowledge(&"a2".to_string()));
    assert!(tracker.extend_deadline(&"a3".to_string(), 300));
    let expired = tracker.expired_ids(200);
    assert_eq!(expired, vec!["a1".to_string()]);
    let none_expired = tracker.expired_ids(50);
    assert!(none_expired.is_empty());
}
