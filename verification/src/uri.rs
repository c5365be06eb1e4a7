//! Deterministic construction of the service endpoint URIs.
//!
//! Names are appended verbatim as path segments — no encoding is applied —
//! so callers must supply already-valid identifiers. Each builder's result
//! is pinned, character for character, to a spec function of the inputs.

use vstd::prelude::*;

verus! {

/// The storage endpoint for one object: `.../b/<bucket>/o/<name>`.
pub open spec fn spec_object_uri(bucket: Seq<char>, name: Seq<char>) -> Seq<char> {
    "https://storage.googleapis.com/storage/v1/b/"@ + bucket + "/o/"@ + name
}

/// The storage endpoint that copies one object onto another:
/// the source object's URI followed by `/copyTo/b/<bucket>/o/<name>` of the
/// destination.
pub open spec fn spec_copy_uri(
    src_bucket: Seq<char>,
    src_name: Seq<char>,
    dst_bucket: Seq<char>,
    dst_name: Seq<char>,
) -> Seq<char> {
    spec_object_uri(src_bucket, src_name) + "/copyTo/b/"@ + dst_bucket + "/o/"@ + dst_name
}

/// The messaging endpoint for one subscription action (`pull`,
/// `acknowledge`, `modifyAckDeadline`), appended after a colon.
pub open spec fn spec_subscription_uri(
    project: Seq<char>,
    subscription: Seq<char>,
    action: Seq<char>,
) -> Seq<char> {
    "https://pubsub.googleapis.com/v1/projects/"@ + project + "/subscriptions/"@ + subscription
        + ":"@ + action
}

/// The messaging endpoint that publishes to one topic.
pub open spec fn spec_topic_publish_uri(project: Seq<char>, topic: Seq<char>) -> Seq<char> {
    "https://pubsub.googleapis.com/v1/projects/"@ + project + "/topics/"@ + topic + ":publish"@
}

/// Build the object URI.
pub fn object_uri(bucket: &String, name: &String) -> (r: String)
    ensures
        r@ == spec_object_uri(bucket@, name@),
{
    let r = String::from_str("https://storage.googleapis.com/storage/v1/b/")
        .concat(bucket.as_str())
        .concat("/o/")
        .concat(name.as_str());
    proof {
        assert(r@ =~= spec_object_uri(bucket@, name@));
    }
    r
}

/// Build the copy URI from source to destination.
pub fn copy_uri(
    src_bucket: &String,
    src_name: &String,
    dst_bucket: &String,
    dst_name: &String,
) -> (r: String)
    ensures
        r@ == spec_copy_uri(src_bucket@, src_name@, dst_bucket@, dst_name@),
{
    let r = object_uri(src_bucket, src_name)
        .concat("/copyTo/b/")
        .concat(dst_bucket.as_str())
        .concat("/o/")
        .concat(dst_name.as_str());
    proof {
        assert(r@ =~= spec_copy_uri(src_bucket@, src_name@, dst_bucket@, dst_name@));
    }
    r
}

/// Build the subscription action URI.
pub fn subscription_uri(project: &String, subscription: &String, action: &str) -> (r: String)
    ensures
        r@ == spec_subscription_uri(project@, subscription@, action@),
{
    let r = String::from_str("https://pubsub.googleapis.com/v1/projects/")
        .concat(project.as_str())
        .concat("/subscriptions/")
        .concat(subscription.as_str())
        .concat(":")
        .concat(action);
    proof {
        assert(r@ =~= spec_subscription_uri(project@, subscription@, action@));
    }
    r
}

/// Build the topic publish URI.
pub fn topic_publish_uri(project: &String, topic: &String) -> (r: String)
    ensures
        r@ == spec_topic_publish_uri(project@, topic@),
{
    let r = String::from_str("https://pubsub.googleapis.com/v1/projects/")
        .concat(project.as_str())
        .concat("/topics/")
        .concat(topic.as_str())
        .concat(":publish");
    proof {
        assert(r@ =~= spec_topic_publish_uri(project@, topic@));
    }
    r
}

/// URI construction is deterministic: the same bucket and object names
/// always produce the same object path and the same copy path, for every
/// pair of inputs.
pub proof fn lemma_uri_construction_deterministic(
    bucket_a: Seq<char>,
    name_a: Seq<char>,
    bucket_b: Seq<char>,
    name_b: Seq<char>,
)
    requires
        bucket_a == bucket_b,
        name_a == name_b,
    ensures
        spec_object_uri(bucket_a, name_a) == spec_object_uri(bucket_b, name_b),
        forall|db: Seq<char>, dn: Seq<char>|
            spec_copy_uri(bucket_a, name_a, db, dn) == spec_copy_uri(bucket_b, name_b, db, dn),
{
}

/// The messaging endpoints are deterministic in the same way: the same
/// project and resource names always produce the same subscription action
/// path and the same topic publish path.
pub proof fn lemma_messaging_uri_deterministic(
    project_a: Seq<char>,
    name_a: Seq<char>,
    project_b: Seq<char>,
    name_b: Seq<char>,
)
    requires
        project_a == project_b,
        name_a == name_b,
    ensures
        forall|action: Seq<char>|
            spec_subscription_uri(project_a, name_a, action) == spec_subscription_uri(
                project_b,
                name_b,
                action,
            ),
        spec_topic_publish_uri(project_a, name_a) == spec_topic_publish_uri(project_b, name_b),
{
}

} // verus!
