//! The subscription handle and the pull/acknowledge cycle.
//!
//! A pull asks the service for undelivered messages; each one arrives with
//! an ack identifier and must be acknowledged (or have its deadline
//! extended) before the deadline elapses, else it expires and becomes
//! eligible for redelivery with a grown attempt count. Acknowledgement is
//! idempotent end to end: the remote's 404 for an already-settled ack
//! identifier is a tolerated no-op, never a hard failure, and the local
//! [`AckTracker`] absorbs a repeated acknowledgement without change.

use vstd::prelude::*;
use crate::client::{BuiltRequest, Client, HttpMethod};
use crate::client::spec_bearer;
use crate::decode::{member, spec_member, spec_str_member, spec_u64_member, str_member, u64_member};
use crate::error::Error;
use crate::executor::{classify_outcome, finish_decode, spec_classify, TransportOutcome};
use crate::json::{append_json_string, dec_string, spec_dec, spec_json_string};
use crate::jsonval::{parse_tree, spec_parsed, Json};
use crate::message::{EncodedMessage, EncodedMessageModel};
use crate::tracker::AckTracker;
use crate::uri::{spec_subscription_uri, subscription_uri};

verus! {

/// A handle to one subscription. Handles made through [`Subscription::new`]
/// carry their client; a detached handle refuses every operation with
/// [`Error::Unbound`].
pub struct Subscription {
    pub name: String,
    pub client: Option<Client>,
}

/// What an acknowledgement attempt came to: newly confirmed, or already
/// settled on the remote side (the tolerated no-op of a duplicate or
/// expired ack identifier).
#[derive(Clone, Copy, Debug, PartialEq, Eq, Structural)]
pub enum AckReply {
    Acknowledged,
    AlreadyGone,
}

/// The JSON array of ack identifiers, comma separated.
pub open spec fn spec_quoted_list(ids: Seq<String>) -> Seq<char>
    decreases ids.len(),
{
    if ids.len() == 0 {
        Seq::empty()
    } else if ids.len() == 1 {
        spec_json_string(ids[0]@)
    } else {
        spec_quoted_list(ids.drop_last()) + ","@ + spec_json_string(ids.last()@)
    }
}

/// The exact body of a pull request.
pub open spec fn spec_pull_body(max_messages: u64) -> Seq<char> {
    "{\"maxMessages\":"@ + spec_dec(max_messages as int) + "}"@
}

/// The exact body of an acknowledge request.
pub open spec fn spec_ack_body(ids: Seq<String>) -> Seq<char> {
    "{\"ackIds\":["@ + spec_quoted_list(ids) + "]}"@
}

/// The exact body of a modify-ack-deadline request.
pub open spec fn spec_modify_body(ids: Seq<String>, seconds: u64) -> Seq<char> {
    "{\"ackIds\":["@ + spec_quoted_list(ids) + "],\"ackDeadlineSeconds\":"@ + spec_dec(
        seconds as int,
    ) + "}"@
}

/// The text of an optional member, empty where it is absent.
pub open spec fn spec_text(o: Option<String>) -> Seq<char> {
    match o {
        Some(s) => s@,
        None => Seq::empty(),
    }
}

/// The count of an optional member, zero where it is absent.
pub open spec fn spec_count(o: Option<u64>) -> u64 {
    match o {
        Some(n) => n,
        None => 0,
    }
}

/// One delivered envelope: the ack identifier and a `message` member with
/// its identifier are owed; payload, publish time and ordering key default
/// to empty text, the attempt count to zero.
pub open spec fn spec_decode_message(j: Json) -> Option<EncodedMessageModel> {
    match spec_str_member(j, "ackId"@) {
        None => None,
        Some(ack) => match spec_member(j, "message"@) {
            None => None,
            Some(m) => match spec_str_member(m, "messageId"@) {
                None => None,
                Some(mid) => Some(
                    EncodedMessageModel {
                        ack_id: ack@,
                        message_id: mid@,
                        data: spec_text(spec_str_member(m, "data"@)),
                        publish_time: spec_text(spec_str_member(m, "publishTime"@)),
                        ordering_key: spec_text(spec_str_member(m, "orderingKey"@)),
                        attempt: spec_count(spec_u64_member(j, "deliveryAttempt"@)),
                    },
                ),
            },
        },
    }
}

/// The envelopes in the tail of a `receivedMessages` array.
pub open spec fn spec_messages_suffix(items: Seq<Json>, from: int) -> Option<
    Seq<EncodedMessageModel>,
>
    decreases items.len() - from,
{
    if from >= items.len() {
        Some(Seq::empty())
    } else {
        match spec_decode_message(items[from]) {
            None => None,
            Some(m) => match spec_messages_suffix(items, from + 1) {
                Some(rest) => Some(rest.insert(0, m)),
                None => None,
            },
        }
    }
}

/// The pull response schema: an absent `receivedMessages` member is an
/// empty delivery; a present one must be an array of envelopes.
pub open spec fn spec_decode_pull(j: Json) -> Option<Seq<EncodedMessageModel>> {
    match spec_member(j, "receivedMessages"@) {
        None => Some(Seq::empty()),
        Some(f) => match f {
            Json::Arr(a) => spec_messages_suffix(a@, 0),
            _ => None,
        },
    }
}

/// How one finished acknowledge exchange is read: success confirms the
/// acknowledgement, the remote's 404 is the tolerated already-gone no-op,
/// and every other outcome keeps the executor's classification.
pub open spec fn spec_interpret_ack(outcome: TransportOutcome) -> Result<AckReply, Error> {
    match outcome {
        TransportOutcome::Failed { cause } => Err(Error::Transport { cause }),
        TransportOutcome::Completed { status, body } => {
            if status == 200 {
                Ok(AckReply::Acknowledged)
            } else if status == 404 {
                Ok(AckReply::AlreadyGone)
            } else {
                Err(Error::Remote { code: status, message: body })
            }
        },
    }
}

impl Subscription {
    /// A handle bound to the given client.
    pub fn new(client: Client, name: String) -> (r: Subscription)
        ensures
            r.name == name,
            r.client == Some(client),
    {
        Subscription { name, client: Some(client) }
    }

    /// A handle without a client; every operation on it fails fast.
    pub fn detached(name: String) -> (r: Subscription)
        ensures
            r.name == name,
            r.client is None,
    {
        Subscription { name, client: None }
    }

    /// Build the pull request, bounded by a message count. A handle
    /// without a client fails with [`Error::Unbound`] before any transport
    /// work.
    pub fn pull_request(&self, max_messages: u64) -> (r: Result<BuiltRequest, Error>)
        ensures
            self.client is None <==> r == Err::<BuiltRequest, Error>(Error::Unbound),
            self.client matches Some(c) ==> (r matches Ok(req) && req.method == HttpMethod::Post
                && req.uri@ == spec_subscription_uri(c.project@, self.name@, "pull"@)
                && req.authorization@ == spec_bearer(c.token@) && req.body@ == spec_pull_body(
                max_messages,
            ) && (req.content_type matches Some(ct) && ct@ == "application/json"@)),
    {
        match &self.client {
            None => Err(Error::Unbound),
            Some(c) => {
                let uri = subscription_uri(&c.project, &self.name, "pull");
                let mut body = String::from_str("{\"maxMessages\":");
                let rendered = dec_string(max_messages);
                body.append(rendered.as_str());
                body.append("}");
                proof {
                    assert(body@ =~= spec_pull_body(max_messages));
                    reveal_strlit("{\"maxMessages\":");
                    assert(body@.len() > 0);
                }
                Ok(c.build_authenticated(HttpMethod::Post, uri, body))
            },
        }
    }

    /// Build the acknowledge request for the given ack identifiers.
    pub fn acknowledge_request(&self, ack_ids: &Vec<String>) -> (r: Result<BuiltRequest, Error>)
        ensures
            self.client is None <==> r == Err::<BuiltRequest, Error>(Error::Unbound),
            self.client matches Some(c) ==> (r matches Ok(req) && req.method == HttpMethod::Post
                && req.uri@ == spec_subscription_uri(c.project@, self.name@, "acknowledge"@)
                && req.authorization@ == spec_bearer(c.token@) && req.body@ == spec_ack_body(
                ack_ids@,
            ) && (req.content_type matches Some(ct) && ct@ == "application/json"@)),
    {
        match &self.client {
            None => Err(Error::Unbound),
            Some(c) => {
                let uri = subscription_uri(&c.project, &self.name, "acknowledge");
                let mut body = String::from_str("{\"ackIds\":[");
                append_quoted_list(&mut body, ack_ids);
                body.append("]}");
                proof {
                    assert(body@ =~= spec_ack_body(ack_ids@));
                    reveal_strlit("{\"ackIds\":[");
                    assert(body@.len() > 0);
                }
                Ok(c.build_authenticated(HttpMethod::Post, uri, body))
            },
        }
    }

    /// Build the modify-ack-deadline request that extends the deadline of
    /// the given ack identifiers.
    pub fn modify_deadline_request(&self, ack_ids: &Vec<String>, seconds: u64) -> (r: Result<
        BuiltRequest,
        Error,
    >)
        ensures
            self.client is None <==> r == Err::<BuiltRequest, Error>(Error::Unbound),
            self.client matches Some(c) ==> (r matches Ok(req) && req.method == HttpMethod::Post
                && req.uri@ == spec_subscription_uri(c.project@, self.name@, "modifyAckDeadline"@)
                && req.authorization@ == spec_bearer(c.token@) && req.body@ == spec_modify_body(
                ack_ids@,
                seconds,
            ) && (req.content_type matches Some(ct) && ct@ == "application/json"@)),
    {
        match &self.client {
            None => Err(Error::Unbound),
            Some(c) => {
                let uri = subscription_uri(&c.project, &self.name, "modifyAckDeadline");
                let mut body = String::from_str("{\"ackIds\":[");
                append_quoted_list(&mut body, ack_ids);
                body.append("],\"ackDeadlineSeconds\":");
                let rendered = dec_string(seconds);
                body.append(rendered.as_str());
                body.append("}");
                proof {
                    assert(body@ =~= spec_modify_body(ack_ids@, seconds));
                    reveal_strlit("{\"ackIds\":[");
                    assert(body@.len() > 0);
                }
                Ok(c.build_authenticated(HttpMethod::Post, uri, body))
            },
        }
    }

    /// Interpret the transport outcome of a pull: classification follows
    /// [`spec_classify`] with the subscription's name as the resource, and
    /// a successful body's parse and decode are owed exactly — the
    /// returned messages are the envelopes of the response body (an empty
    /// delivery is a success, not an error), and the serialization error
    /// comes exactly when parse or schema fails.
    pub fn finish_pull(&self, outcome: TransportOutcome) -> (r: Result<Vec<EncodedMessage>, Error>)
        ensures
            spec_classify(outcome, self.name) matches Err(e) ==> r == Err::<
                Vec<EncodedMessage>,
                Error,
            >(e),
            spec_classify(outcome, self.name) matches Ok(body) ==> (match spec_parsed(body@) {
                None => r == Err::<Vec<EncodedMessage>, Error>(Error::Serialization),
                Some(j) => match spec_decode_pull(j) {
                    None => r == Err::<Vec<EncodedMessage>, Error>(Error::Serialization),
                    Some(models) => r matches Ok(v) && v@.map_values(
                        (|m: EncodedMessage| m.model()),
                    ) == models,
                },
            }),
    {
        match classify_outcome(outcome, self.name.clone()) {
            Err(e) => Err(e),
            Ok(body) => match parse_tree(body.as_str()) {
                None => Err(Error::Serialization),
                Some(j) => finish_decode(decode_pull_messages(&j)),
            },
        }
    }

    /// Interpret the transport outcome of an acknowledge, exactly as
    /// [`spec_interpret_ack`] states: 200 confirms, 404 is the tolerated
    /// already-gone no-op, anything else is the classified error.
    pub fn finish_acknowledge(&self, outcome: TransportOutcome) -> (r: Result<AckReply, Error>)
        ensures
            r == spec_interpret_ack(outcome),
    {
        match outcome {
            TransportOutcome::Failed { cause } => Err(Error::Transport { cause }),
            TransportOutcome::Completed { status, body } => {
                if status == 200 {
                    Ok(AckReply::Acknowledged)
                } else if status == 404 {
                    Ok(AckReply::AlreadyGone)
                } else {
                    Err(Error::Remote { code: status, message: body })
                }
            },
        }
    }

    /// Interpret the transport outcome of a modify-ack-deadline:
    /// classification follows [`spec_classify`]; success carries no body
    /// worth decoding.
    pub fn finish_modify_deadline(&self, outcome: TransportOutcome) -> (r: Result<(), Error>)
        ensures
            spec_classify(outcome, self.name) matches Err(e) ==> r == Err::<(), Error>(e),
            spec_classify(outcome, self.name) is Ok ==> r == Ok::<(), Error>(()),
    {
        match classify_outcome(outcome, self.name.clone()) {
            Err(e) => Err(e),
            Ok(_) => Ok(()),
        }
    }
}

/// Acknowledging an ack identifier twice is idempotent on the remote side:
/// whatever the body, the second attempt's 404 reads as the already-gone
/// no-op, a 200 reads as confirmation, and neither is a hard failure.
pub proof fn lemma_duplicate_ack_is_no_hard_failure(status: u16, body: String)
    requires
        status == 200 || status == 404,
    ensures
        spec_interpret_ack(TransportOutcome::Completed { status, body }) is Ok,
        status == 404 ==> spec_interpret_ack(TransportOutcome::Completed { status, body }) == Ok::<
            AckReply,
            Error,
        >(AckReply::AlreadyGone),
{
}

/// Append the comma-separated JSON string literals of the identifiers.
fn append_quoted_list(out: &mut String, ids: &Vec<String>)
    ensures
        final(out)@ == old(out)@ + spec_quoted_list(ids@),
{
    let mut i: usize = 0;
    while i < ids.len()
        invariant
            i <= ids.len(),
            out@ == old(out)@ + spec_quoted_list(ids@.subrange(0, i as int)),
        decreases ids.len() - i,
    {
        if i > 0 {
            out.append(",");
        }
        append_json_string(out, ids[i].as_str());
        proof {
            let prefix = ids@.subrange(0, i as int);
            let next = ids@.subrange(0, i as int + 1);
            assert(next.drop_last() =~= prefix);
            assert(next.last() == ids@[i as int]);
            assert(out@ =~= old(out)@ + spec_quoted_list(next));
        }
        i = i + 1;
    }
    proof {
        assert(ids@.subrange(0, ids.len() as int) =~= ids@);
    }
}

/// Decode one delivered envelope, exactly as [`spec_decode_message`]
/// reads.
fn decode_message(j: &Json) -> (r: Option<EncodedMessage>)
    ensures
        match r {
            Some(m) => spec_decode_message(*j) == Some(m.model()),
            None => spec_decode_message(*j) is None,
        },
{
    let ack_id = match str_member(j, "ackId") {
        Some(s) => s,
        None => return None,
    };
    let message = match member(j, "message") {
        Some(m) => m,
        None => return None,
    };
    let message_id = match str_member(message, "messageId") {
        Some(s) => s,
        None => return None,
    };
    let data = match str_member(message, "data") {
        Some(s) => s,
        None => String::new(),
    };
    let publish_time = match str_member(message, "publishTime") {
        Some(s) => s,
        None => String::new(),
    };
    let ordering_key = match str_member(message, "orderingKey") {
        Some(s) => s,
        None => String::new(),
    };
    let attempt = match u64_member(j, "deliveryAttempt") {
        Some(n) => n,
        None => 0,
    };
    let m = EncodedMessage { ack_id, message_id, data, publish_time, ordering_key, attempt };
    proof {
        assert(spec_decode_message(*j) == Some(m.model()));
    }
    Some(m)
}

/// Decode the tail of the `receivedMessages` array, exactly as
/// [`spec_messages_suffix`] reads.
fn decode_messages_suffix(items: &Vec<Json>, from: usize) -> (r: Option<Vec<EncodedMessage>>)
    requires
        from <= items.len(),
    ensures
        match r {
            Some(v) => spec_messages_suffix(items@, from as int) == Some(
                v@.map_values((|m: EncodedMessage| m.model())),
            ),
            None => spec_messages_suffix(items@, from as int) is None,
        },
    decreases items.len() - from,
{
    if from == items.len() {
        let v: Vec<EncodedMessage> = Vec::new();
        proof {
            assert(v@.map_values((|m: EncodedMessage| m.model()))
                =~= Seq::<EncodedMessageModel>::empty());
        }
        Some(v)
    } else {
        match decode_message(&items[from]) {
            None => None,
            Some(m) => match decode_messages_suffix(items, from + 1) {
                Some(mut rest) => {
                    let ghost rest0 = rest@;
                    let ghost model = m.model();
                    rest.insert(0, m);
                    proof {
                        assert(rest@.map_values((|x: EncodedMessage| x.model()))
                            =~= rest0.map_values((|x: EncodedMessage| x.model())).insert(
                            0,
                            model,
                        ));
                    }
                    Some(rest)
                },
                None => None,
            },
        }
    }
}

/// Decode the pull response, exactly as [`spec_decode_pull`] reads: an
/// absent message list is an empty delivery.
pub(crate) fn decode_pull_messages(j: &Json) -> (r: Option<Vec<EncodedMessage>>)
    ensures
        match r {
            Some(v) => spec_decode_pull(*j) == Some(
                v@.map_values((|m: EncodedMessage| m.model())),
            ),
            None => spec_decode_pull(*j) is None,
        },
{
    match member(j, "receivedMessages") {
        None => {
            let v: Vec<EncodedMessage> = Vec::new();
            proof {
                assert(v@.map_values((|m: EncodedMessage| m.model()))
                    =~= Seq::<EncodedMessageModel>::empty());
            }
            Some(v)
        },
        Some(f) => match f {
            Json::Arr(a) => decode_messages_suffix(a, 0),
            _ => None,
        },
    }
}

/// One pull, tracked: the delivered envelopes enter the ledger as live
/// deliveries at the given deadline, exactly as a pull followed by
/// [`AckTracker::track_pulled`] would.
pub fn pull_into_tracker(
    subscription: &Subscription,
    outcome: TransportOutcome,
    tracker: &mut AckTracker,
    deadline: u64,
) -> (r: Result<Vec<EncodedMessage>, Error>)
    ensures
        r matches Ok(v) ==> final(tracker).entries@ == old(tracker).entries@ + v@.map_values(
            (|m: EncodedMessage| crate::tracker::spec_delivery_of(m, deadline)),
        ),
        r is Err ==> *final(tracker) == *old(tracker),
{
    match subscription.finish_pull(outcome) {
        Err(e) => Err(e),
        Ok(messages) => {
            tracker.track_pulled(&messages, deadline);
            Ok(messages)
        },
    }
}

} // verus!
