//! The topic handle and the publish operation.

use vstd::prelude::*;
use crate::client::{BuiltRequest, Client, HttpMethod};
use crate::client::spec_bearer;
use crate::decode::{arr_member, spec_arr_member};
use crate::error::Error;
use crate::executor::{classify_outcome, finish_decode, spec_classify, TransportOutcome};
use crate::json::{append_json_string, spec_json_string};
use crate::jsonval::{parse_tree, spec_parsed, Json};
use crate::uri::{spec_topic_publish_uri, topic_publish_uri};

verus! {

/// A handle to one topic. Handles made through [`Topic::new`] carry their
/// client; a detached handle refuses every operation with
/// [`Error::Unbound`].
pub struct Topic {
    pub name: String,
    pub client: Option<Client>,
}

/// One message record of a publish body, carrying the transport-encoded
/// payload text.
pub open spec fn spec_message_item(data: Seq<char>) -> Seq<char> {
    "{\"data\":"@ + spec_json_string(data) + "}"@
}

/// The comma-separated message records of a publish body.
pub open spec fn spec_message_list(datas: Seq<String>) -> Seq<char>
    decreases datas.len(),
{
    if datas.len() == 0 {
        Seq::empty()
    } else if datas.len() == 1 {
        spec_message_item(datas[0]@)
    } else {
        spec_message_list(datas.drop_last()) + ","@ + spec_message_item(datas.last()@)
    }
}

/// The exact body of a publish request.
pub open spec fn spec_publish_body(datas: Seq<String>) -> Seq<char> {
    "{\"messages\":["@ + spec_message_list(datas) + "]}"@
}

/// The identifiers in the tail of a `messageIds` array, each a JSON
/// string; `None` on any other element kind.
pub open spec fn spec_ids_suffix(items: Seq<Json>, from: int) -> Option<Seq<Seq<char>>>
    decreases items.len() - from,
{
    if from >= items.len() {
        Some(Seq::empty())
    } else {
        match items[from] {
            Json::Str(s) => match spec_ids_suffix(items, from + 1) {
                Some(rest) => Some(rest.insert(0, s@)),
                None => None,
            },
            _ => None,
        }
    }
}

/// The publish response schema: the `messageIds` member as a list of
/// identifier texts.
pub open spec fn spec_decode_ids(j: Json) -> Option<Seq<Seq<char>>> {
    match spec_arr_member(j, "messageIds"@) {
        Some(items) => spec_ids_suffix(items, 0),
        None => None,
    }
}

impl Topic {
    /// A handle bound to the given client.
    pub fn new(client: Client, name: String) -> (r: Topic)
        ensures
            r.name == name,
            r.client == Some(client),
    {
        Topic { name, client: Some(client) }
    }

    /// A handle without a client; every operation on it fails fast.
    pub fn detached(name: String) -> (r: Topic)
        ensures
            r.name == name,
            r.client is None,
    {
        Topic { name, client: None }
    }

    /// Build the publish request carrying the given transport-encoded
    /// payloads, one message record each. A handle without a client fails
    /// with [`Error::Unbound`] before any transport work.
    pub fn publish_request(&self, datas: &Vec<String>) -> (r: Result<BuiltRequest, Error>)
        ensures
            self.client is None <==> r == Err::<BuiltRequest, Error>(Error::Unbound),
            self.client matches Some(c) ==> (r matches Ok(req) && req.method == HttpMethod::Post
                && req.uri@ == spec_topic_publish_uri(c.project@, self.name@) && req.authorization@
                == spec_bearer(c.token@) && req.body@ == spec_publish_body(datas@)
                && (req.content_type matches Some(ct) && ct@ == "application/json"@)),
    {
        match &self.client {
            None => Err(Error::Unbound),
            Some(c) => {
                let uri = topic_publish_uri(&c.project, &self.name);
                let mut body = String::from_str("{\"messages\":[");
                let mut i: usize = 0;
                while i < datas.len()
                    invariant
                        i <= datas.len(),
                        body@ == "{\"messages\":["@ + spec_message_list(
                            datas@.subrange(0, i as int),
                        ),
                    decreases datas.len() - i,
                {
                    if i > 0 {
                        body.append(",");
                    }
                    body.append("{\"data\":");
                    append_json_string(&mut body, datas[i].as_str());
                    body.append("}");
                    proof {
                        let prefix = datas@.subrange(0, i as int);
                        let next = datas@.subrange(0, i as int + 1);
                        assert(next.drop_last() =~= prefix);
                        assert(next.last() == datas@[i as int]);
                        assert(body@ =~= "{\"messages\":["@ + spec_message_list(next));
                    }
                    i = i + 1;
                }
                body.append("]}");
                proof {
                    assert(datas@.subrange(0, datas.len() as int) =~= datas@);
                    assert(body@ =~= spec_publish_body(datas@));
                    reveal_strlit("{\"messages\":[");
                    assert(body@.len() > 0);
                }
                Ok(c.build_authenticated(HttpMethod::Post, uri, body))
            },
        }
    }

    /// Interpret the transport outcome of a publish: classification
    /// follows [`spec_classify`] with the topic's name as the resource,
    /// and a successful body's parse and decode are owed exactly — the
    /// returned identifiers are the `messageIds` of the response body, and
    /// the serialization error comes exactly when parse or schema fails.
    pub fn finish_publish(&self, outcome: TransportOutcome) -> (r: Result<Vec<String>, Error>)
        ensures
            spec_classify(outcome, self.name) matches Err(e) ==> r == Err::<Vec<String>, Error>(e),
            spec_classify(outcome, self.name) matches Ok(body) ==> (match spec_parsed(body@) {
                None => r == Err::<Vec<String>, Error>(Error::Serialization),
                Some(j) => match spec_decode_ids(j) {
                    None => r == Err::<Vec<String>, Error>(Error::Serialization),
                    Some(ids) => r matches Ok(v) && v@.map_values(|s: String| s@) == ids,
                },
            }),
    {
        match classify_outcome(outcome, self.name.clone()) {
            Err(e) => Err(e),
            Ok(body) => match parse_tree(body.as_str()) {
                None => Err(Error::Serialization),
                Some(j) => finish_decode(decode_message_ids(&j)),
            },
        }
    }
}

/// Decode the tail of the `messageIds` array, exactly as
/// [`spec_ids_suffix`] reads.
fn decode_ids_suffix(items: &Vec<Json>, from: usize) -> (r: Option<Vec<String>>)
    requires
        from <= items.len(),
    ensures
        match r {
            Some(v) => spec_ids_suffix(items@, from as int) == Some(
                v@.map_values(|s: String| s@),
            ),
            None => spec_ids_suffix(items@, from as int) is None,
        },
    decreases items.len() - from,
{
    if from == items.len() {
        let v: Vec<String> = Vec::new();
        proof {
            assert(v@.map_values(|s: String| s@) =~= Seq::<Seq<char>>::empty());
        }
        Some(v)
    } else {
        match &items[from] {
            Json::Str(s) => match decode_ids_suffix(items, from + 1) {
                Some(mut rest) => {
                    let ghost rest0 = rest@;
                    rest.insert(0, s.clone());
                    proof {
                        assert(rest@.map_values(|x: String| x@) =~= rest0.map_values(
                            |x: String| x@,
                        ).insert(0, s@));
                    }
                    Some(rest)
                },
                None => None,
            },
            _ => None,
        }
    }
}

/// Decode the publish response, exactly as [`spec_decode_ids`] reads.
pub(crate) fn decode_message_ids(j: &Json) -> (r: Option<Vec<String>>)
    ensures
        match r {
            Some(v) => spec_decode_ids(*j) == Some(v@.map_values(|s: String| s@)),
            None => spec_decode_ids(*j) is None,
        },
{
    match arr_member(j, "messageIds") {
        Some(items) => decode_ids_suffix(items, 0),
        None => None,
    }
}

} // verus!
