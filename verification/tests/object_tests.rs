use cloud_pubsub::client::{Client, HttpMethod};
use cloud_pubsub::error::Error;
use cloud_pubsub::executor::TransportOutcome;
use cloud_pubsub::object::{Object, ObjectRequest};
use cloud_pubsub::uri::{copy_uri, object_uri};

fn test_client() -> Client {
    Client::new("proj-1".to_string(), "tok-1".to_string())
}

fn resource_body(bucket: &str, name: &str) -> String {
    let acl = "{\"kind\":\"storage#objectAccessControl\",\"id\":\"aclid\",\"selfLink\":\"aclsl\",\"bucket\":\"b1\",\"object\":\"n2\",\"generation\":3,\"entity\":\"user-x\",\"role\":\"OWNER\",\"email\":\"e@example.com\",\"entityId\":\"uid\",\"domain\":\"d\",\"projectTeam\":{\"projectNumber\":\"123\",\"team\":\"owners\"},\"etag\":\"aet\"}";
    format!(
        "{{\"kind\":\"storage#object\",\"id\":\"id1\",\"selfLink\":\"sl\",\"name\":\"{}\",\"bucket\":\"{}\",\"generation\":3,\"metageneration\":1,\"contentType\":\"text/plain\",\"timeCreated\":\"2020-01-01T00:00:00Z\",\"updated\":\"2020-01-02T00:00:00Z\",\"timeDeleted\":\"2020-01-03T00:00:00Z\",\"temporaryHold\":false,\"eventBasedHold\":true,\"retentionExpirationTime\":\"2020-02-01T00:00:00Z\",\"storageClass\":\"STANDARD\",\"timeStorageClassUpdated\":\"2020-01-01T00:00:00Z\",\"size\":42,\"md5Hash\":\"mh\",\"mediaLink\":\"ml\",\"contentEncoding\":\"identity\",\"contentDisposition\":\"inline\",\"contentLanguage\":\"en\",\"cacheControl\":\"no-cache\",\"metadata\":{{\"k1\":\"v1\"}},\"acl\":[{}],\"owner\":{{\"entity\":\"user-x\",\"entityId\":\"uid\"}},\"crc32c\":\"crc\",\"componentCount\":2,\"etag\":\"et\",\"customerEncryption\":{{\"encryptionAlgorithm\":\"AES256\",\"keySha256\":\"ks\"}},\"kmsKeyName\":\"kms\"}}",
        name, bucket, acl
    )
}

#[test]
fn uri_construction_is_deterministic() {
    let b = "bucket-a".to_string();
    let n = "name-a".to_string();
    assert_eq!(object_uri(&b, &n), object_uri(&b, &n));
    assert_eq!(
        copy_uri(&b, &n, &"b2".to_string(), &"n2".to_string()),
        copy_uri(&b, &n, &"b2".to_string(), &"n2".to_string())
    );
}

#[test]
fn object_uri_exact_path() {
    let uri = object_uri(&"b1".to_string(), &"n1".to_string());
    assert_eq!(uri, "https://storage.googleapis.com/storage/v1/b/b1/o/n1");
}

#[test]
fn copy_uri_exact_path() {
    let uri = copy_uri(
        &"b1".to_string(),
        &"n1".to_string(),
        &"b1".to_string(),
        &"n2".to_string(),
    );
    assert_eq!(
        uri,
        "https://storage.googleapis.com/storage/v1/b/b1/o/n1/copyTo/b/b1/o/n2"
    );
}

#[test]
fn object_request_body_exact() {
    let req = ObjectRequest { bucket: "b1".to_string(), name: "n1".to_string() };
    assert_eq!(req.to_json(), "{\"bucket\":\"b1\",\"name\":\"n1\"}");
}

#[test]
fn object_request_body_escapes_special_characters() {
    let req = ObjectRequest { bucket: "b\"1".to_string(), name: "n\u{0001}\\x".to_string() };
    assert_eq!(req.to_json(), "{\"bucket\":\"b\\\"1\",\"name\":\"n\\u0001\\\\x\"}");
}

#[test]
fn detached_object_fails_fast_with_unbound() {
    let obj = Object::detached("b1".to_string(), "n1".to_string());
    let dest = ObjectRequest { bucket: "b1".to_string(), name: "n2".to_string() };
    let body = dest.to_json();
    assert_eq!(obj.copy_request(&dest, body), Err(Error::Unbound));
    assert_eq!(obj.destroy_request(), Err(Error::Unbound));
}

#[test]
fn bound_get_request_is_bodyless_get() {
    let obj = Object::new(test_client(), "b1".to_string(), "n1".to_string());
    let req = obj.get_request().unwrap();
    assert_eq!(req.method, HttpMethod::Get);
    assert_eq!(req.uri, "https://storage.googleapis.com/storage/v1/b/b1/o/n1");
    assert_eq!(req.authorization, "Bearer tok-1");
    assert_eq!(req.content_type, None);
    assert_eq!(req.body, "");
}

#[test]
fn get_success_decodes_the_metadata() {
    let obj = Object::new(test_client(), "b1".to_string(), "n1".to_string());
    let outcome = TransportOutcome::Completed { status: 200, body: resource_body("b1", "n1") };
    let resource = obj.finish_get(outcome).unwrap();
    assert_eq!(resource.name, "n1");
    assert_eq!(resource.storage_class, "STANDARD");
}

#[test]
fn detached_get_fails_fast_with_unbound() {
    let obj = Object::detached("b1".to_string(), "n1".to_string());
    assert_eq!(obj.get_request(), Err(Error::Unbound));
}

#[test]
fn bound_copy_request_is_authenticated_post() {
    let obj = Object::new(test_client(), "b1".to_string(), "n1".to_string());
    let dest = ObjectRequest { bucket: "b1".to_string(), name: "n2".to_string() };
    let body = dest.to_json();
    let req = obj.copy_request(&dest, body).unwrap();
    assert_eq!(req.method, HttpMethod::Post);
    assert_eq!(req.uri, "https://storage.googleapis.com/storage/v1/b/b1/o/n1/copyTo/b/b1/o/n2");
    assert_eq!(req.authorization, "Bearer tok-1");
    assert_eq!(req.content_type, Some("application/json".to_string()));
    assert_eq!(req.body, "{\"bucket\":\"b1\",\"name\":\"n2\"}");
}

#[test]
fn bound_destroy_request_is_bodyless_delete() {
    let obj = Object::new(test_client(), "b1".to_string(), "n1".to_string());
    let req = obj.destroy_request().unwrap();
    assert_eq!(req.method, HttpMethod::Delete);
    assert_eq!(req.uri, "https://storage.googleapis.com/storage/v1/b/b1/o/n1");
    assert_eq!(req.authorization, "Bearer tok-1");
    assert_eq!(req.content_type, None);
    assert_eq!(req.body, "");
}

#[test]
fn copy_success_reflects_destination_fields() {
    let obj = Object::new(test_client(), "b1".to_string(), "n1".to_string());
    let outcome = TransportOutcome::Completed { status: 200, body: resource_body("b1", "n2") };
    let resource = obj.finish_copy(outcome).unwrap();
    assert_eq!(resource.bucket, "b1");
    assert_eq!(resource.name, "n2");
    assert_eq!(resource.generation, 3);
    assert_eq!(resource.size, 42);
    assert_eq!(resource.component_count, 2);
    assert!(resource.event_based_hold);
    assert!(!resource.temporary_hold);
    assert_eq!(resource.time_created, "2020-01-01T00:00:00Z");
    assert_eq!(resource.metadata, Some(vec![("k1".to_string(), "v1".to_string())]));
    assert_eq!(resource.acl.len(), 1);
    assert_eq!(resource.acl[0].role, "OWNER");
    assert_eq!(resource.acl[0].project_team.project_number, "123");
    assert_eq!(resource.owner.entity, "user-x");
    assert_eq!(resource.customer_encryption.encryption_algorithm, "AES256");
}

#[test]
fn copy_success_with_invalid_json_is_serialization_error() {
    let obj = Object::new(test_client(), "b1".to_string(), "n1".to_string());
    let outcome = TransportOutcome::Completed { status: 200, body: "not json".to_string() };
    assert_eq!(obj.finish_copy(outcome), Err(Error::Serialization));
}

#[test]
fn copy_success_with_wrong_schema_is_serialization_error() {
    let obj = Object::new(test_client(), "b1".to_string(), "n1".to_string());
    let outcome = TransportOutcome::Completed { status: 200, body: "{\"name\":\"n2\"}".to_string() };
    assert_eq!(obj.finish_copy(outcome), Err(Error::Serialization));
}

#[test]
fn copy_404_carries_the_object_name() {
    let obj = Object::new(test_client(), "b1".to_string(), "n1".to_string());
    let outcome = TransportOutcome::Completed { status: 404, body: "whatever".to_string() };
    assert_eq!(obj.finish_copy(outcome), Err(Error::NotFound { resource: "n1".to_string() }));
}

#[test]
fn destroy_404_is_distinguishable_not_found() {
    let obj = Object::new(test_client(), "b1".to_string(), "n1".to_string());
    let outcome = TransportOutcome::Completed { status: 404, body: "".to_string() };
    let r = obj.finish_destroy(outcome);
    match r {
        Err((returned, e)) => {
            assert!(e.is_not_found());
            assert_eq!(e, Error::NotFound { resource: "n1".to_string() });
            assert_eq!(returned.bucket, "b1");
            assert_eq!(returned.name, "n1");
        }
        Ok(()) => panic!("a 404 destroy must not read as success"),
    }
}

#[test]
fn destroy_success_consumes_the_handle() {
    let obj = Object::new(test_client(), "b1".to_string(), "n1".to_string());
    let outcome = TransportOutcome::Completed { status: 200, body: resource_body("b1", "n1") };
    assert!(obj.finish_destroy(outcome).is_ok());
}

#[test]
fn destroy_transport_failure_returns_the_handle() {
    let obj = Object::new(test_client(), "b1".to_string(), "n1".to_string());
    let outcome = TransportOutcome::Failed { cause: "timeout".to_string() };
    match obj.finish_destroy(outcome) {
        Err((returned, Error::Transport { cause })) => {
            assert_eq!(cause, "timeout");
            assert_eq!(returned.name, "n1");
        }
        _ => panic!("expected the transport error with the handle returned"),
    }
}
