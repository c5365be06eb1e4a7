use cloud_pubsub::error::Error;
use cloud_pubsub::executor::{classify_outcome, finish_decode, TransportOutcome};

#[test]
fn status_404_is_not_found_regardless_of_body() {
    for body in ["", "{}", "<html>gone</html>", "{\"error\":\"x\"}"] {
        let outcome = TransportOutcome::Completed { status: 404, body: body.to_string() };
        let r = classify_outcome(outcome, "res-a".to_string());
        match r {
            Err(Error::NotFound { resource }) => assert_eq!(resource, "res-a"),
            _ => panic!("expected the not-found error"),
        }
    }
}

#[test]
fn status_200_hands_the_body_on() {
    let outcome = TransportOutcome::Completed { status: 200, body: "{\"a\":1}".to_string() };
    let r = classify_outcome(outcome, "res".to_string());
    assert_eq!(r, Ok("{\"a\":1}".to_string()));
}

#[test]
fn other_status_is_remote_error_with_full_body() {
    let outcome = TransportOutcome::Completed { status: 503, body: "backend unavailable".to_string() };
    let r = classify_outcome(outcome, "res".to_string());
    assert_eq!(r, Err(Error::Remote { code: 503, message: "backend unavailable".to_string() }));
}

#[test]
fn status_201_is_still_a_remote_error() {
    let outcome = TransportOutcome::Completed { status: 201, body: "created".to_string() };
    let r = classify_outcome(outcome, "res".to_string());
    assert_eq!(r, Err(Error::Remote { code: 201, message: "created".to_string() }));
}

#[test]
fn transport_failure_is_the_transport_error() {
    let outcome = TransportOutcome::Failed { cause: "connection refused".to_string() };
    let r = classify_outcome(outcome, "res".to_string());
    assert_eq!(r, Err(Error::Transport { cause: "connection refused".to_string() }));
}

#[test]
fn failed_decode_is_the_serialization_error() {
    let r: Result<u64, Error> = finish_decode(None);
    assert_eq!(r, Err(Error::Serialization));
    let r: Result<u64, Error> = finish_decode(Some(7));
    assert_eq!(r, Ok(7));
}

#[test]
fn error_kind_accessors_match_the_kind() {
    assert!(Error::Unbound.is_unbound());
    assert!(Error::NotFound { resource: "x".to_string() }.is_not_found());
    assert!(Error::Transport { cause: "c".to_string() }.is_transport());
    assert!(Error::Serialization.is_serialization());
    let e = Error::Remote { code: 500, message: "m".to_string() };
    assert_eq!(e.remote_code(), Some(500));
    assert_eq!(Error::Unbound.remote_code(), None);
}
