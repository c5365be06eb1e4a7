use cloud_pubsub::client::{Client, HttpMethod};
use cloud_pubsub::error::Error;
use cloud_pubsub::executor::TransportOutcome;
use cloud_pubsub::topic::Topic;

fn test_topic() -> Topic {
    Topic::new(Client::new("proj-1".to_string(), "tok-1".to_string()), "top-1".to_string())
}

#[test]
fn detached_topic_fails_fast_with_unbound() {
    let topic = Topic::detached("top-1".to_string());
    assert!(matches!(topic.publish_request(&vec!["d".to_string()]), Err(Error::Unbound)));
}

#[test]
fn publish_request_frames_each_message() {
    let topic = test_topic();
    let req = topic.publish_request(&vec!["d1".to_string(), "d2".to_string()]).unwrap();
    assert_eq!(req.method, HttpMethod::Post);
    assert_eq!(
        req.uri,
        "https://pubsub.googleapis.com/v1/projects/proj-1/topics/top-1:publish"
    );
    assert_eq!(req.authorization, "Bearer tok-1");
    assert_eq!(req.body, "{\"messages\":[{\"data\":\"d1\"},{\"data\":\"d2\"}]}");
}

#[test]
fn publish_request_with_no_messages_has_an_empty_list() {
    let topic = test_topic();
    let req = topic.publish_request(&Vec::new()).unwrap();
    assert_eq!(req.body, "{\"messages\":[]}");
}

#[test]
fn publish_success_decodes_the_assigned_ids() {
    let topic = test_topic();
    let outcome = TransportOutcome::Completed {
        status: 200,
        body: "{\"messageIds\":[\"101\",\"102\"]}".to_string(),
    };
    assert_eq!(
        topic.finish_publish(outcome),
        Ok(vec!["101".to_string(), "102".to_string()])
    );
}

#[test]
fn publish_success_with_wrong_schema_is_serialization_error() {
    let topic = test_topic();
    let outcome = TransportOutcome::Completed { status: 200, body: "{\"ok\":true}".to_string() };
    assert_eq!(topic.finish_publish(outcome), Err(Error::Serialization));
}

#[test]
fn publish_remote_failure_carries_code_and_body() {
    let topic = test_topic();
    let outcome = TransportOutcome::Completed { status: 429, body: "rate limited".to_string() };
    assert_eq!(
        topic.finish_publish(outcome),
        Err(Error::Remote { code: 429, message: "rate limited".to_string() })
    );
}
