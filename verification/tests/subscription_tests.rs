use cloud_pubsub::client::{Client, HttpMethod};
use cloud_pubsub::error::Error;
use cloud_pubsub::executor::TransportOutcome;
use cloud_pubsub::subscription::{pull_into_tracker, AckReply, Subscription};
use cloud_pubsub::tracker::AckTracker;

fn test_subscription() -> Subscription {
    Subscription::new(
        Client::new("proj-1".to_string(), "tok-1".to_string()),
        "sub-1".to_string(),
    )
}

#[test]
fn detached_subscription_fails_fast_with_unbound() {
    let sub = Subscription::detached("sub-1".to_string());
    assert!(matches!(sub.pull_request(5), Err(Error::Unbound)));
    assert!(matches!(sub.acknowledge_request(&vec!["a".to_string()]), Err(Error::Unbound)));
    assert!(matches!(
        sub.modify_deadline_request(&vec!["a".to_string()], 30),
        Err(Error::Unbound)
    ));
}

#[test]
fn pull_request_is_authenticated_post_with_bound() {
    let sub = test_subscription();
    let req = sub.pull_request(5).unwrap();
    assert_eq!(req.method, HttpMethod::Post);
    assert_eq!(
        req.uri,
        "https://pubsub.googleapis.com/v1/projects/proj-1/subscriptions/sub-1:pull"
    );
    assert_eq!(req.authorization, "Bearer tok-1");
    assert_eq!(req.content_type, Some("application/json".to_string()));
    assert_eq!(req.body, "{\"maxMessages\":5}");
}

#[test]
fn pull_request_renders_large_bounds_in_decimal() {
    let sub = test_subscription();
    let req = sub.pull_request(1000).unwrap();
    assert_eq!(req.body, "{\"maxMessages\":1000}");
    let req = sub.pull_request(0).unwrap();
    assert_eq!(req.body, "{\"maxMessages\":0}");
}

#[test]
fn acknowledge_request_lists_the_ids() {
    let sub = test_subscription();
    let ids = vec!["a1".to_string(), "a2".to_string()];
    let req = sub.acknowledge_request(&ids).unwrap();
    assert_eq!(
        req.uri,
        "https://pubsub.googleapis.com/v1/projects/proj-1/subscriptions/sub-1:acknowledge"
    );
    assert_eq!(req.body, "{\"ackIds\":[\"a1\",\"a2\"]}");
}

#[test]
fn acknowledge_request_with_no_ids_has_an_empty_list() {
    let sub = test_subscription();
    let req = sub.acknowledge_request(&Vec::new()).unwrap();
    assert_eq!(req.body, "{\"ackIds\":[]}");
}

#[test]
fn modify_deadline_request_carries_ids_and_seconds() {
    let sub = test_subscription();
    let req = sub.modify_deadline_request(&vec!["a1".to_string()], 30).unwrap();
    assert_eq!(
        req.uri,
        "https://pubsub.googleapis.com/v1/projects/proj-1/subscriptions/sub-1:modifyAckDeadline"
    );
    assert_eq!(req.body, "{\"ackIds\":[\"a1\"],\"ackDeadlineSeconds\":30}");
}

#[test]
fn pulling_from_an_empty_subscription_is_an_empty_delivery() {
    let sub = test_subscription();
    let outcome = TransportOutcome::Completed { status: 200, body: "{}".to_string() };
    let messages = sub.finish_pull(outcome).unwrap();
    assert!(messages.is_empty());
}

#[test]
fn pull_decodes_delivered_messages() {
    let sub = test_subscription();
    let body = "{\"receivedMessages\":[{\"ackId\":\"a1\",\"message\":{\"data\":\"aGk=\",\"messageId\":\"m1\",\"publishTime\":\"2020-01-01T00:00:00Z\",\"orderingKey\":\"k1\"},\"deliveryAttempt\":2},{\"ackId\":\"a2\",\"message\":{\"messageId\":\"m2\"}}]}";
    let outcome = TransportOutcome::Completed { status: 200, body: body.to_string() };
    let messages = sub.finish_pull(outcome).unwrap();
    assert_eq!(messages.len(), 2);
    assert_eq!(messages[0].ack_id, "a1");
    assert_eq!(messages[0].message_id, "m1");
    assert_eq!(messages[0].data, "aGk=");
    assert_eq!(messages[0].publish_time, "2020-01-01T00:00:00Z");
    assert_eq!(messages[0].ordering_key, "k1");
    assert_eq!(messages[0].attempt, 2);
    assert_eq!(messages[1].ack_id, "a2");
    assert_eq!(messages[1].data, "");
    assert_eq!(messages[1].ordering_key, "");
    assert_eq!(messages[1].attempt, 0);
}

#[test]
fn pull_with_invalid_json_is_serialization_error() {
    let sub = test_subscription();
    let outcome = TransportOutcome::Completed { status: 200, body: "not json".to_string() };
    assert!(matches!(sub.finish_pull(outcome), Err(Error::Serialization)));
}

#[test]
fn pull_with_wrong_schema_is_serialization_error() {
    let sub = test_subscription();
    let outcome = TransportOutcome::Completed {
        status: 200,
        body: "{\"receivedMessages\":[{\"message\":{}}]}".to_string(),
    };
    assert!(matches!(sub.finish_pull(outcome), Err(Error::Serialization)));
}

#[test]
fn pull_404_is_not_found() {
    let sub = test_subscription();
    let outcome = TransportOutcome::Completed { status: 404, body: "gone".to_string() };
    assert_eq!(
        sub.finish_pull(outcome).unwrap_err(),
        Error::NotFound { resource: "sub-1".to_string() }
    );
}

#[test]
fn acknowledge_200_confirms() {
    let sub = test_subscription();
    let outcome = TransportOutcome::Completed { status: 200, body: "{}".to_string() };
    assert_eq!(sub.finish_acknowledge(outcome), Ok(AckReply::Acknowledged));
}

#[test]
fn acknowledge_404_is_tolerated_no_op() {
    let sub = test_subscription();
    for body in ["", "{}", "already expired"] {
        let outcome = TransportOutcome::Completed { status: 404, body: body.to_string() };
        assert_eq!(sub.finish_acknowledge(outcome), Ok(AckReply::AlreadyGone));
    }
}

#[test]
fn acknowledge_other_status_is_remote_error() {
    let sub = test_subscription();
    let outcome = TransportOutcome::Completed { status: 503, body: "overloaded".to_string() };
    assert_eq!(
        sub.finish_acknowledge(outcome),
        Err(Error::Remote { code: 503, message: "overloaded".to_string() })
    );
}

#[test]
fn acknowledge_transport_failure_is_transport_error() {
    let sub = test_subscription();
    let outcome = TransportOutcome::Failed { cause: "reset".to_string() };
    assert_eq!(
        sub.finish_acknowledge(outcome),
        Err(Error::Transport { cause: "reset".to_string() })
    );
}

#[test]
fn pull_into_tracker_enters_live_deliveries() {
    let sub = test_subscription();
    let mut tracker = AckTracker::new();
    let body = "{\"receivedMessages\":[{\"ackId\":\"a1\",\"message\":{\"messageId\":\"m1\"}}]}";
    let outcome = TransportOutcome::Completed { status: 200, body: body.to_string() };
    let messages = pull_into_tracker(&sub, outcome, &mut tracker, 120).unwrap();
    assert_eq!(messages.len(), 1);
    assert_eq!(tracker.entries.len(), 1);
    assert_eq!(tracker.entries[0].ack_id, "a1");
    assert_eq!(tracker.entries[0].deadline, 120);
    assert!(!tracker.entries[0].acked);
    let failed = TransportOutcome::Failed { cause: "reset".to_string() };
    assert!(pull_into_tracker(&sub, failed, &mut tracker, 200).is_err());
    assert_eq!(tracker.entries.len(), 1);
}

#[test]
fn modify_deadline_success_and_errors_follow_classification() {
    let sub = test_subscription();
    let ok = TransportOutcome::Completed { status: 200, body: "{}".to_string() };
    assert_eq!(sub.finish_modify_deadline(ok), Ok(()));
    let gone = TransportOutcome::Completed { status: 404, body: "".to_string() };
    assert_eq!(
        sub.finish_modify_deadline(gone),
        Err(Error::NotFound { resource: "sub-1".to_string() })
    );
}
