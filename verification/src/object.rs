//! The object-storage resource handle and its metadata records.
//!
//! An [`Object`] names one stored object and carries the client it was made
//! from; `get`, `copy` and `destroy` are each split into a verified request
//! builder (which fails fast with [`Error::Unbound`] on a handle without a
//! client, before any transport work) and a verified interpreter of the
//! transport outcome whose decode is owed exactly against the response
//! schema. The metadata records mirror the service's response schema as
//! plain values; timestamps are kept as the RFC 3339 text the service sent.

use vstd::prelude::*;
use crate::client::{BuiltRequest, Client, HttpMethod};
use crate::client::spec_bearer;
use crate::decode::{
    arr_member, bool_member, i64_member, member, spec_arr_member, spec_bool_member,
    spec_i64_member, spec_member, spec_str_member, spec_u64_member, str_member, u64_member,
};
use crate::error::Error;
use crate::executor::{classify_outcome, finish_decode, spec_classify, TransportOutcome};
use crate::json::{append_json_string, spec_json_string};
use crate::jsonval::{parse_tree, spec_parsed, Json};
use crate::uri::{copy_uri, object_uri, spec_copy_uri, spec_object_uri};

verus! {

/// A handle to one stored object. Handles made through [`Object::new`]
/// carry their client; a detached handle (as arises when an object record
/// is read back from data) refuses every operation with [`Error::Unbound`].
pub struct Object {
    pub bucket: String,
    pub name: String,
    pub client: Option<Client>,
}

/// The body record naming an object: `{"bucket":...,"name":...}`.
pub struct ObjectRequest {
    pub bucket: String,
    pub name: String,
}

/// The service's metadata record for one stored object, decoded from a
/// successful response. Purely a read-only projection: timestamps stay as
/// the RFC 3339 text of the response, and metadata is the response's
/// key/value pairs.
#[derive(Debug, Clone, PartialEq, Eq)]
pub struct ObjectResource {
    pub kind: String,
    pub id: String,
    pub self_link: String,
    pub name: String,
    pub bucket: String,
    pub generation: u64,
    pub metageneration: u64,
    pub content_type: String,
    pub time_created: String,
    pub updated: String,
    pub time_deleted: String,
    pub temporary_hold: bool,
    pub event_based_hold: bool,
    pub retention_expiration_time: String,
    pub storage_class: String,
    pub time_storage_class_updated: String,
    pub size: u64,
    pub md5_hash: String,
    pub media_link: String,
    pub content_encoding: String,
    pub content_disposition: String,
    pub content_language: String,
    pub cache_control: String,
    pub metadata: Option<Vec<(String, String)>>,
    pub acl: Vec<ObjectAccessControl>,
    pub owner: ObjectOwner,
    pub crc32c: String,
    pub component_count: i32,
    pub etag: String,
    pub customer_encryption: ObjectCustomerEncryption,
    pub kms_key_name: String,
}

/// Customer-supplied encryption details of an object.
#[derive(Debug, Clone, PartialEq, Eq)]
pub struct ObjectCustomerEncryption {
    pub encryption_algorithm: String,
    pub key_sha256: String,
}

/// The owner entity of an object.
#[derive(Debug, Clone, PartialEq, Eq)]
pub struct ObjectOwner {
    pub entity: String,
    pub entity_id: String,
}

/// One entry of an object's access-control list.
#[derive(Debug, Clone, PartialEq, Eq)]
pub struct ObjectAccessControl {
    pub kind: String,
    pub id: String,
    pub self_link: String,
    pub bucket: String,
    pub object: String,
    pub generation: u64,
    pub entity: String,
    pub role: String,
    pub email: String,
    pub entity_id: String,
    pub domain: String,
    pub project_team: ProjectTeam,
    pub etag: String,
}

/// The project team an access-control entry refers to.
#[derive(Debug, Clone, PartialEq, Eq)]
pub struct ProjectTeam {
    pub project_number: String,
    pub team: String,
}

/// The mathematical content of a [`ProjectTeam`].
#[verifier::ext_equal]
pub ghost struct TeamModel {
    pub project_number: Seq<char>,
    pub team: Seq<char>,
}

/// The mathematical content of an [`ObjectOwner`].
#[verifier::ext_equal]
pub ghost struct OwnerModel {
    pub entity: Seq<char>,
    pub entity_id: Seq<char>,
}

/// The mathematical content of an [`ObjectCustomerEncryption`].
#[verifier::ext_equal]
pub ghost struct EncryptionModel {
    pub encryption_algorithm: Seq<char>,
    pub key_sha256: Seq<char>,
}

/// The mathematical content of an [`ObjectAccessControl`].
#[verifier::ext_equal]
pub ghost struct AccessControlModel {
    pub kind: Seq<char>,
    pub id: Seq<char>,
    pub self_link: Seq<char>,
    pub bucket: Seq<char>,
    pub object: Seq<char>,
    pub generation: u64,
    pub entity: Seq<char>,
    pub role: Seq<char>,
    pub email: Seq<char>,
    pub entity_id: Seq<char>,
    pub domain: Seq<char>,
    pub project_team: TeamModel,
    pub etag: Seq<char>,
}

/// The mathematical content of an [`ObjectResource`].
#[verifier::ext_equal]
pub ghost struct ObjectResourceModel {
    pub kind: Seq<char>,
    pub id: Seq<char>,
    pub self_link: Seq<char>,
    pub name: Seq<char>,
    pub bucket: Seq<char>,
    pub generation: u64,
    pub metageneration: u64,
    pub content_type: Seq<char>,
    pub time_created: Seq<char>,
    pub updated: Seq<char>,
    pub time_deleted: Seq<char>,
    pub temporary_hold: bool,
    pub event_based_hold: bool,
    pub retention_expiration_time: Seq<char>,
    pub storage_class: Seq<char>,
    pub time_storage_class_updated: Seq<char>,
    pub size: u64,
    pub md5_hash: Seq<char>,
    pub media_link: Seq<char>,
    pub content_encoding: Seq<char>,
    pub content_disposition: Seq<char>,
    pub content_language: Seq<char>,
    pub cache_control: Seq<char>,
    pub metadata: Option<Seq<(Seq<char>, Seq<char>)>>,
    pub acl: Seq<AccessControlModel>,
    pub owner: OwnerModel,
    pub crc32c: Seq<char>,
    pub component_count: i32,
    pub etag: Seq<char>,
    pub customer_encryption: EncryptionModel,
    pub kms_key_name: Seq<char>,
}

impl ProjectTeam {
    /// What this record holds, field by field.
    pub open spec fn model(self) -> TeamModel {
        TeamModel { project_number: self.project_number@, team: self.team@ }
    }
}

impl ObjectOwner {
    /// What this record holds, field by field.
    pub open spec fn model(self) -> OwnerModel {
        OwnerModel { entity: self.entity@, entity_id: self.entity_id@ }
    }
}

impl ObjectCustomerEncryption {
    /// What this record holds, field by field.
    pub open spec fn model(self) -> EncryptionModel {
        EncryptionModel {
            encryption_algorithm: self.encryption_algorithm@,
            key_sha256: self.key_sha256@,
        }
    }
}

impl ObjectAccessControl {
    /// What this record holds, field by field.
    pub open spec fn model(self) -> AccessControlModel {
        AccessControlModel {
            kind: self.kind@,
            id: self.id@,
            self_link: self.self_link@,
            bucket: self.bucket@,
            object: self.object@,
            generation: self.generation,
            entity: self.entity@,
            role: self.role@,
            email: self.email@,
            entity_id: self.entity_id@,
            domain: self.domain@,
            project_team: self.project_team.model(),
            etag: self.etag@,
        }
    }
}

impl ObjectResource {
    /// What this record holds, field by field.
    pub open spec fn model(self) -> ObjectResourceModel {
        ObjectResourceModel {
            kind: self.kind@,
            id: self.id@,
            self_link: self.self_link@,
            name: self.name@,
            bucket: self.bucket@,
            generation: self.generation,
            metageneration: self.metageneration,
            content_type: self.content_type@,
            time_created: self.time_created@,
            updated: self.updated@,
            time_deleted: self.time_deleted@,
            temporary_hold: self.temporary_hold,
            event_based_hold: self.event_based_hold,
            retention_expiration_time: self.retention_expiration_time@,
            storage_class: self.storage_class@,
            time_storage_class_updated: self.time_storage_class_updated@,
            size: self.size,
            md5_hash: self.md5_hash@,
            media_link: self.media_link@,
            content_encoding: self.content_encoding@,
            content_disposition: self.content_disposition@,
            content_language: self.content_language@,
            cache_control: self.cache_control@,
            metadata: match self.metadata {
                None => None,
                Some(v) => Some(v@.map_values((|p: (String, String)| (p.0@, p.1@)))),
            },
            acl: self.acl@.map_values((|a: ObjectAccessControl| a.model())),
            owner: self.owner.model(),
            crc32c: self.crc32c@,
            component_count: self.component_count,
            etag: self.etag@,
            customer_encryption: self.customer_encryption.model(),
            kms_key_name: self.kms_key_name@,
        }
    }
}

/// The text of a member that the guard owes.
pub open spec fn spec_req_text(o: Option<String>) -> Seq<char> {
    match o {
        Some(s) => s@,
        None => Seq::empty(),
    }
}

/// The project-team schema.
pub open spec fn spec_decode_team(j: Json) -> Option<TeamModel> {
    if spec_str_member(j, "projectNumber"@) is Some && spec_str_member(j, "team"@) is Some {
        Some(
            TeamModel {
                project_number: spec_req_text(spec_str_member(j, "projectNumber"@)),
                team: spec_req_text(spec_str_member(j, "team"@)),
            },
        )
    } else {
        None
    }
}

/// The owner schema.
pub open spec fn spec_decode_owner(j: Json) -> Option<OwnerModel> {
    if spec_str_member(j, "entity"@) is Some && spec_str_member(j, "entityId"@) is Some {
        Some(
            OwnerModel {
                entity: spec_req_text(spec_str_member(j, "entity"@)),
                entity_id: spec_req_text(spec_str_member(j, "entityId"@)),
            },
        )
    } else {
        None
    }
}

/// The customer-encryption schema.
pub open spec fn spec_decode_encryption(j: Json) -> Option<EncryptionModel> {
    if spec_str_member(j, "encryptionAlgorithm"@) is Some && spec_str_member(j, "keySha256"@)
        is Some {
        Some(
            EncryptionModel {
                encryption_algorithm: spec_req_text(spec_str_member(j, "encryptionAlgorithm"@)),
                key_sha256: spec_req_text(spec_str_member(j, "keySha256"@)),
            },
        )
    } else {
        None
    }
}

/// Whether the access-control entry schema's members are all present.
pub open spec fn spec_acl_entry_present(j: Json) -> bool {
    &&& spec_str_member(j, "kind"@) is Some
    &&& spec_str_member(j, "id"@) is Some
    &&& spec_str_member(j, "selfLink"@) is Some
    &&& spec_str_member(j, "bucket"@) is Some
    &&& spec_str_member(j, "object"@) is Some
    &&& spec_u64_member(j, "generation"@) is Some
    &&& spec_str_member(j, "entity"@) is Some
    &&& spec_str_member(j, "role"@) is Some
    &&& spec_str_member(j, "email"@) is Some
    &&& spec_str_member(j, "entityId"@) is Some
    &&& spec_str_member(j, "domain"@) is Some
    &&& (match spec_member(j, "projectTeam"@) {
        Some(t) => spec_decode_team(t) is Some,
        None => false,
    })
    &&& spec_str_member(j, "etag"@) is Some
}

/// The access-control entry schema.
pub open spec fn spec_decode_acl_entry(j: Json) -> Option<AccessControlModel> {
    if spec_acl_entry_present(j) {
        Some(
            AccessControlModel {
                kind: spec_req_text(spec_str_member(j, "kind"@)),
                id: spec_req_text(spec_str_member(j, "id"@)),
                self_link: spec_req_text(spec_str_member(j, "selfLink"@)),
                bucket: spec_req_text(spec_str_member(j, "bucket"@)),
                object: spec_req_text(spec_str_member(j, "object"@)),
                generation: spec_u64_member(j, "generation"@)->0,
                entity: spec_req_text(spec_str_member(j, "entity"@)),
                role: spec_req_text(spec_str_member(j, "role"@)),
                email: spec_req_text(spec_str_member(j, "email"@)),
                entity_id: spec_req_text(spec_str_member(j, "entityId"@)),
                domain: spec_req_text(spec_str_member(j, "domain"@)),
                project_team: spec_decode_team(spec_member(j, "projectTeam"@)->0)->0,
                etag: spec_req_text(spec_str_member(j, "etag"@)),
            },
        )
    } else {
        None
    }
}

/// The entries in the tail of an `acl` array.
pub open spec fn spec_acl_suffix(items: Seq<Json>, from: int) -> Option<Seq<AccessControlModel>>
    decreases items.len() - from,
{
    if from >= items.len() {
        Some(Seq::empty())
    } else {
        match spec_decode_acl_entry(items[from]) {
            None => None,
            Some(a) => match spec_acl_suffix(items, from + 1) {
                Some(rest) => Some(rest.insert(0, a)),
                None => None,
            },
        }
    }
}

/// The pairs in the tail of a `metadata` object's member list: every value
/// must be a JSON string.
pub open spec fn spec_pairs_suffix(entries: Seq<(String, Json)>, from: int) -> Option<
    Seq<(Seq<char>, Seq<char>)>,
>
    decreases entries.len() - from,
{
    if from >= entries.len() {
        Some(Seq::empty())
    } else {
        match entries[from].1 {
            Json::Str(v) => match spec_pairs_suffix(entries, from + 1) {
                Some(rest) => Some(rest.insert(0, (entries[from].0@, v@))),
                None => None,
            },
            _ => None,
        }
    }
}

/// The `metadata` member's reading: absent is a present `None`; a present
/// member must be an object of string values.
pub open spec fn spec_object_metadata(j: Json) -> Option<Option<Seq<(Seq<char>, Seq<char>)>>> {
    match spec_member(j, "metadata"@) {
        None => Some(None),
        Some(m) => match m {
            Json::Obj(entries) => match spec_pairs_suffix(entries@, 0) {
                Some(pairs) => Some(Some(pairs)),
                None => None,
            },
            _ => None,
        },
    }
}

/// The `acl` member's reading.
pub open spec fn spec_object_acl(j: Json) -> Option<Seq<AccessControlModel>> {
    match spec_arr_member(j, "acl"@) {
        Some(items) => spec_acl_suffix(items, 0),
        None => None,
    }
}

/// The `componentCount` member's reading, owed to fit an `i32`.
pub open spec fn spec_component_count(j: Json) -> Option<i32> {
    match spec_i64_member(j, "componentCount"@) {
        Some(n) => if i32::MIN as i64 <= n && n <= i32::MAX as i64 {
            Some(n as i32)
        } else {
            None
        },
        None => None,
    }
}

/// Whether the object-metadata schema's members are all present and well
/// typed.
pub open spec fn spec_object_present(j: Json) -> bool {
    &&& spec_str_member(j, "kind"@) is Some
    &&& spec_str_member(j, "id"@) is Some
    &&& spec_str_member(j, "selfLink"@) is Some
    &&& spec_str_member(j, "name"@) is Some
    &&& spec_str_member(j, "bucket"@) is Some
    &&& spec_u64_member(j, "generation"@) is Some
    &&& spec_u64_member(j, "metageneration"@) is Some
    &&& spec_str_member(j, "contentType"@) is Some
    &&& spec_str_member(j, "timeCreated"@) is Some
    &&& spec_str_member(j, "updated"@) is Some
    &&& spec_str_member(j, "timeDeleted"@) is Some
    &&& spec_bool_member(j, "temporaryHold"@) is Some
    &&& spec_bool_member(j, "eventBasedHold"@) is Some
    &&& spec_str_member(j, "retentionExpirationTime"@) is Some
    &&& spec_str_member(j, "storageClass"@) is Some
    &&& spec_str_member(j, "timeStorageClassUpdated"@) is Some
    &&& spec_u64_member(j, "size"@) is Some
    &&& spec_str_member(j, "md5Hash"@) is Some
    &&& spec_str_member(j, "mediaLink"@) is Some
    &&& spec_str_member(j, "contentEncoding"@) is Some
    &&& spec_str_member(j, "contentDisposition"@) is Some
    &&& spec_str_member(j, "contentLanguage"@) is Some
    &&& spec_str_member(j, "cacheControl"@) is Some
    &&& spec_object_metadata(j) is Some
    &&& spec_object_acl(j) is Some
    &&& (match spec_member(j, "owner"@) {
        Some(o) => spec_decode_owner(o) is Some,
        None => false,
    })
    &&& spec_str_member(j, "crc32c"@) is Some
    &&& spec_component_count(j) is Some
    &&& spec_str_member(j, "etag"@) is Some
    &&& (match spec_member(j, "customerEncryption"@) {
        Some(e) => spec_decode_encryption(e) is Some,
        None => false,
    })
    &&& spec_str_member(j, "kmsKeyName"@) is Some
}

/// The full object-metadata schema.
pub open spec fn spec_decode_object(j: Json) -> Option<ObjectResourceModel> {
    if spec_object_present(j) {
        Some(
            ObjectResourceModel {
                kind: spec_req_text(spec_str_member(j, "kind"@)),
                id: spec_req_text(spec_str_member(j, "id"@)),
                self_link: spec_req_text(spec_str_member(j, "selfLink"@)),
                name: spec_req_text(spec_str_member(j, "name"@)),
                bucket: spec_req_text(spec_str_member(j, "bucket"@)),
                generation: spec_u64_member(j, "generation"@)->0,
                metageneration: spec_u64_member(j, "metageneration"@)->0,
                content_type: spec_req_text(spec_str_member(j, "contentType"@)),
                time_created: spec_req_text(spec_str_member(j, "timeCreated"@)),
                updated: spec_req_text(spec_str_member(j, "updated"@)),
                time_deleted: spec_req_text(spec_str_member(j, "timeDeleted"@)),
                temporary_hold: spec_bool_member(j, "temporaryHold"@)->0,
                event_based_hold: spec_bool_member(j, "eventBasedHold"@)->0,
                retention_expiration_time: spec_req_text(
                    spec_str_member(j, "retentionExpirationTime"@),
                ),
                storage_class: spec_req_text(spec_str_member(j, "storageClass"@)),
                time_storage_class_updated: spec_req_text(
                    spec_str_member(j, "timeStorageClassUpdated"@),
                ),
                size: spec_u64_member(j, "size"@)->0,
                md5_hash: spec_req_text(spec_str_member(j, "md5Hash"@)),
                media_link: spec_req_text(spec_str_member(j, "mediaLink"@)),
                content_encoding: spec_req_text(spec_str_member(j, "contentEncoding"@)),
                content_disposition: spec_req_text(spec_str_member(j, "contentDisposition"@)),
                content_language: spec_req_text(spec_str_member(j, "contentLanguage"@)),
                cache_control: spec_req_text(spec_str_member(j, "cacheControl"@)),
                metadata: spec_object_metadata(j)->0,
                acl: spec_object_acl(j)->0,
                owner: spec_decode_owner(spec_member(j, "owner"@)->0)->0,
                crc32c: spec_req_text(spec_str_member(j, "crc32c"@)),
                component_count: spec_component_count(j)->0,
                etag: spec_req_text(spec_str_member(j, "etag"@)),
                customer_encryption: spec_decode_encryption(
                    spec_member(j, "customerEncryption"@)->0,
                )->0,
                kms_key_name: spec_req_text(spec_str_member(j, "kmsKeyName"@)),
            },
        )
    } else {
        None
    }
}

/// The exact JSON text of an [`ObjectRequest`] body.
pub open spec fn spec_object_request_json(bucket: Seq<char>, name: Seq<char>) -> Seq<char> {
    "{\"bucket\":"@ + spec_json_string(bucket) + ",\"name\":"@ + spec_json_string(name) + "}"@
}

impl ObjectRequest {
    /// Frame this record as its JSON body text.
    pub fn to_json(&self) -> (r: String)
        ensures
            r@ == spec_object_request_json(self.bucket@, self.name@),
    {
        let mut out = String::from_str("{\"bucket\":");
        append_json_string(&mut out, self.bucket.as_str());
        out.append(",\"name\":");
        append_json_string(&mut out, self.name.as_str());
        out.append("}");
        proof {
            assert(out@ =~= spec_object_request_json(self.bucket@, self.name@));
        }
        out
    }
}

impl Object {
    /// A handle bound to the given client.
    pub fn new(client: Client, bucket: String, name: String) -> (r: Object)
        ensures
            r.bucket == bucket,
            r.name == name,
            r.client == Some(client),
    {
        Object { bucket, name, client: Some(client) }
    }

    /// A handle without a client, as arises when an object record is read
    /// back from stored data. Every operation on it fails fast.
    pub fn detached(bucket: String, name: String) -> (r: Object)
        ensures
            r.bucket == bucket,
            r.name == name,
            r.client is None,
    {
        Object { bucket, name, client: None }
    }

    /// Whether this handle can perform operations.
    pub fn is_bound(&self) -> (r: bool)
        ensures
            r == (self.client is Some),
    {
        self.client.is_some()
    }

    /// Build the request that fetches this object's metadata. A handle
    /// without a client fails with [`Error::Unbound`] before any transport
    /// work.
    pub fn get_request(&self) -> (r: Result<BuiltRequest, Error>)
        ensures
            self.client is None <==> r == Err::<BuiltRequest, Error>(Error::Unbound),
            self.client matches Some(c) ==> (r matches Ok(req) && req.method == HttpMethod::Get
                && req.uri@ == spec_object_uri(self.bucket@, self.name@) && req.authorization@
                == spec_bearer(c.token@) && req.body@ == Seq::<char>::empty() && req.content_type
                is None),
    {
        match &self.client {
            None => Err(Error::Unbound),
            Some(c) => {
                let uri = object_uri(&self.bucket, &self.name);
                Ok(c.build_authenticated(HttpMethod::Get, uri, String::new()))
            },
        }
    }

    /// Interpret the transport outcome of a metadata fetch: classification
    /// follows [`spec_classify`] with this object's name as the resource,
    /// and a successful body's parse and decode are owed exactly — the
    /// returned record holds the body's fields, and the serialization
    /// error comes exactly when parse or schema fails.
    pub fn finish_get(&self, outcome: TransportOutcome) -> (r: Result<ObjectResource, Error>)
        ensures
            spec_classify(outcome, self.name) matches Err(e) ==> r == Err::<ObjectResource, Error>(
                e,
            ),
            spec_classify(outcome, self.name) matches Ok(body) ==> (match spec_parsed(body@) {
                None => r == Err::<ObjectResource, Error>(Error::Serialization),
                Some(j) => match spec_decode_object(j) {
                    None => r == Err::<ObjectResource, Error>(Error::Serialization),
                    Some(m) => r matches Ok(res) && res.model() == m,
                },
            }),
    {
        match classify_outcome(outcome, self.name.clone()) {
            Err(e) => Err(e),
            Ok(body) => match parse_tree(body.as_str()) {
                None => Err(Error::Serialization),
                Some(j) => finish_decode(decode_object_resource(&j)),
            },
        }
    }

    /// Build the request that copies this object onto the destination,
    /// carrying the given body. A handle without a client fails with
    /// [`Error::Unbound`] before any transport work.
    pub fn copy_request(&self, destination: &ObjectRequest, body: String) -> (r: Result<
        BuiltRequest,
        Error,
    >)
        ensures
            self.client is None <==> r == Err::<BuiltRequest, Error>(Error::Unbound),
            self.client matches Some(c) ==> (r matches Ok(req) && req.method == HttpMethod::Post
                && req.uri@ == spec_copy_uri(
                self.bucket@,
                self.name@,
                destination.bucket@,
                destination.name@,
            ) && req.authorization@ == spec_bearer(c.token@) && req.body == body && (body@.len()
                > 0 ==> (req.content_type matches Some(ct) && ct@ == "application/json"@)) && (
            body@.len() == 0 ==> req.content_type is None)),
    {
        match &self.client {
            None => Err(Error::Unbound),
            Some(c) => {
                let uri = copy_uri(&self.bucket, &self.name, &destination.bucket, &destination.name);
                Ok(c.build_authenticated(HttpMethod::Post, uri, body))
            },
        }
    }

    /// Build the request that deletes this object. A handle without a
    /// client fails with [`Error::Unbound`] before any transport work.
    pub fn destroy_request(&self) -> (r: Result<BuiltRequest, Error>)
        ensures
            self.client is None <==> r == Err::<BuiltRequest, Error>(Error::Unbound),
            self.client matches Some(c) ==> (r matches Ok(req) && req.method == HttpMethod::Delete
                && req.uri@ == spec_object_uri(self.bucket@, self.name@) && req.authorization@
                == spec_bearer(c.token@) && req.body@ == Seq::<char>::empty() && req.content_type
                is None),
    {
        match &self.client {
            None => Err(Error::Unbound),
            Some(c) => {
                let uri = object_uri(&self.bucket, &self.name);
                Ok(c.build_authenticated(HttpMethod::Delete, uri, String::new()))
            },
        }
    }

    /// Interpret the transport outcome of a copy, exactly as `finish_get`
    /// does: the returned record holds the 200 body's fields — for a copy,
    /// the destination's metadata — and the serialization error comes
    /// exactly when parse or schema fails.
    pub fn finish_copy(&self, outcome: TransportOutcome) -> (r: Result<ObjectResource, Error>)
        ensures
            spec_classify(outcome, self.name) matches Err(e) ==> r == Err::<ObjectResource, Error>(
                e,
            ),
            spec_classify(outcome, self.name) matches Ok(body) ==> (match spec_parsed(body@) {
                None => r == Err::<ObjectResource, Error>(Error::Serialization),
                Some(j) => match spec_decode_object(j) {
                    None => r == Err::<ObjectResource, Error>(Error::Serialization),
                    Some(m) => r matches Ok(res) && res.model() == m,
                },
            }),
    {
        match classify_outcome(outcome, self.name.clone()) {
            Err(e) => Err(e),
            Ok(body) => match parse_tree(body.as_str()) {
                None => Err(Error::Serialization),
                Some(j) => finish_decode(decode_object_resource(&j)),
            },
        }
    }

    /// Interpret the transport outcome of a destroy, consuming the handle
    /// exactly when the remote deletion is confirmed by a decodable
    /// success. Every failure hands the handle back beside the typed
    /// error, so a failed destroy never presents the resource as
    /// invalidated; in particular a 404 comes back as the distinct
    /// not-found error, never as success.
    pub fn finish_destroy(self, outcome: TransportOutcome) -> (r: Result<(), (Object, Error)>)
        ensures
            spec_classify(outcome, self.name) matches Err(e) ==> r == Err::<(), (Object, Error)>(
                (self, e),
            ),
            spec_classify(outcome, self.name) matches Ok(body) ==> (match spec_parsed(body@) {
                None => r == Err::<(), (Object, Error)>((self, Error::Serialization)),
                Some(j) => match spec_decode_object(j) {
                    None => r == Err::<(), (Object, Error)>((self, Error::Serialization)),
                    Some(m) => r == Ok::<(), (Object, Error)>(()),
                },
            }),
    {
        match classify_outcome(outcome, self.name.clone()) {
            Err(e) => Err((self, e)),
            Ok(body) => match parse_tree(body.as_str()) {
                None => Err((self, Error::Serialization)),
                Some(j) => match decode_object_resource(&j) {
                    None => Err((self, Error::Serialization)),
                    Some(_) => Ok(()),
                },
            },
        }
    }
}

/// Decode the project-team schema, exactly as [`spec_decode_team`] reads.
fn decode_project_team(j: &Json) -> (r: Option<ProjectTeam>)
    ensures
        match r {
            Some(t) => spec_decode_team(*j) == Some(t.model()),
            None => spec_decode_team(*j) is None,
        },
{
    let project_number = match str_member(j, "projectNumber") {
        Some(s) => s,
        None => return None,
    };
    let team = match str_member(j, "team") {
        Some(s) => s,
        None => return None,
    };
    Some(ProjectTeam { project_number, team })
}

/// Decode the owner schema, exactly as [`spec_decode_owner`] reads.
fn decode_owner(j: &Json) -> (r: Option<ObjectOwner>)
    ensures
        match r {
            Some(o) => spec_decode_owner(*j) == Some(o.model()),
            None => spec_decode_owner(*j) is None,
        },
{
    let entity = match str_member(j, "entity") {
        Some(s) => s,
        None => return None,
    };
    let entity_id = match str_member(j, "entityId") {
        Some(s) => s,
        None => return None,
    };
    Some(ObjectOwner { entity, entity_id })
}

/// Decode the customer-encryption schema, exactly as
/// [`spec_decode_encryption`] reads.
fn decode_customer_encryption(j: &Json) -> (r: Option<ObjectCustomerEncryption>)
    ensures
        match r {
            Some(e) => spec_decode_encryption(*j) == Some(e.model()),
            None => spec_decode_encryption(*j) is None,
        },
{
    let encryption_algorithm = match str_member(j, "encryptionAlgorithm") {
        Some(s) => s,
        None => return None,
    };
    let key_sha256 = match str_member(j, "keySha256") {
        Some(s) => s,
        None => return None,
    };
    Some(ObjectCustomerEncryption { encryption_algorithm, key_sha256 })
}

/// Decode the access-control entry schema, exactly as
/// [`spec_decode_acl_entry`] reads.
fn decode_access_control(j: &Json) -> (r: Option<ObjectAccessControl>)
    ensures
        match r {
            Some(a) => spec_decode_acl_entry(*j) == Some(a.model()),
            None => spec_decode_acl_entry(*j) is None,
        },
{
    let kind = match str_member(j, "kind") { Some(s) => s, None => return None };
    let id = match str_member(j, "id") { Some(s) => s, None => return None };
    let self_link = match str_member(j, "selfLink") { Some(s) => s, None => return None };
    let bucket = match str_member(j, "bucket") { Some(s) => s, None => return None };
    let object = match str_member(j, "object") { Some(s) => s, None => return None };
    let generation = match u64_member(j, "generation") { Some(n) => n, None => return None };
    let entity = match str_member(j, "entity") { Some(s) => s, None => return None };
    let role = match str_member(j, "role") { Some(s) => s, None => return None };
    let email = match str_member(j, "email") { Some(s) => s, None => return None };
    let entity_id = match str_member(j, "entityId") { Some(s) => s, None => return None };
    let domain = match str_member(j, "domain") { Some(s) => s, None => return None };
    let team_member = match member(j, "projectTeam") { Some(t) => t, None => return None };
    let project_team = match decode_project_team(team_member) {
        Some(t) => t,
        None => return None,
    };
    let etag = match str_member(j, "etag") { Some(s) => s, None => return None };
    let entry = ObjectAccessControl {
        kind,
        id,
        self_link,
        bucket,
        object,
        generation,
        entity,
        role,
        email,
        entity_id,
        domain,
        project_team,
        etag,
    };
    proof {
        assert(spec_decode_acl_entry(*j) == Some(entry.model()));
    }
    Some(entry)
}

/// Decode the tail of the `acl` array, exactly as [`spec_acl_suffix`]
/// reads.
fn decode_acl_suffix(items: &Vec<Json>, from: usize) -> (r: Option<Vec<ObjectAccessControl>>)
    requires
        from <= items.len(),
    ensures
        match r {
            Some(v) => spec_acl_suffix(items@, from as int) == Some(
                v@.map_values((|a: ObjectAccessControl| a.model())),
            ),
            None => spec_acl_suffix(items@, from as int) is None,
        },
    decreases items.len() - from,
{
    if from == items.len() {
        let v: Vec<ObjectAccessControl> = Vec::new();
        proof {
            assert(v@.map_values((|a: ObjectAccessControl| a.model()))
                =~= Seq::<AccessControlModel>::empty());
        }
        Some(v)
    } else {
        match decode_access_control(&items[from]) {
            None => None,
            Some(a) => match decode_acl_suffix(items, from + 1) {
                Some(mut rest) => {
                    let ghost rest0 = rest@;
                    let ghost model = a.model();
                    rest.insert(0, a);
                    proof {
                        assert(rest@.map_values((|x: ObjectAccessControl| x.model()))
                            =~= rest0.map_values((|x: ObjectAccessControl| x.model())).insert(
                            0,
                            model,
                        ));
                    }
                    Some(rest)
                },
                None => None,
            },
        }
    }
}

/// Decode the tail of a `metadata` object's member list, exactly as
/// [`spec_pairs_suffix`] reads.
fn decode_pairs_suffix(entries: &Vec<(String, Json)>, from: usize) -> (r: Option<
    Vec<(String, String)>,
>)
    requires
        from <= entries.len(),
    ensures
        match r {
            Some(v) => spec_pairs_suffix(entries@, from as int) == Some(
                v@.map_values((|p: (String, String)| (p.0@, p.1@))),
            ),
            None => spec_pairs_suffix(entries@, from as int) is None,
        },
    decreases entries.len() - from,
{
    if from == entries.len() {
        let v: Vec<(String, String)> = Vec::new();
        proof {
            assert(v@.map_values((|p: (String, String)| (p.0@, p.1@)))
                =~= Seq::<(Seq<char>, Seq<char>)>::empty());
        }
        Some(v)
    } else {
        match &entries[from].1 {
            Json::Str(value) => match decode_pairs_suffix(entries, from + 1) {
                Some(mut rest) => {
                    let ghost rest0 = rest@;
                    let pair = (entries[from].0.clone(), value.clone());
                    let ghost pair_model = (pair.0@, pair.1@);
                    rest.insert(0, pair);
                    proof {
                        assert(rest@.map_values((|p: (String, String)| (p.0@, p.1@)))
                            =~= rest0.map_values((|p: (String, String)| (p.0@, p.1@))).insert(
                            0,
                            pair_model,
                        ));
                    }
                    Some(rest)
                },
                None => None,
            },
            _ => None,
        }
    }
}

/// Decode the full object-metadata schema, exactly as
/// [`spec_decode_object`] reads; `None` on any missing or ill-typed
/// member.
#[verifier::rlimit(40)]
pub(crate) fn decode_object_resource(j: &Json) -> (r: Option<ObjectResource>)
    ensures
        match r {
            Some(res) => spec_decode_object(*j) == Some(res.model()),
            None => spec_decode_object(*j) is None,
        },
{
    let kind = match str_member(j, "kind") { Some(s) => s, None => return None };
    let id = match str_member(j, "id") { Some(s) => s, None => return None };
    let self_link = match str_member(j, "selfLink") { Some(s) => s, None => return None };
    let name = match str_member(j, "name") { Some(s) => s, None => return None };
    let bucket = match str_member(j, "bucket") { Some(s) => s, None => return None };
    let generation = match u64_member(j, "generation") { Some(n) => n, None => return None };
    let metageneration = match u64_member(j, "metageneration") {
        Some(n) => n,
        None => return None,
    };
    let content_type = match str_member(j, "contentType") { Some(s) => s, None => return None };
    let time_created = match str_member(j, "timeCreated") { Some(s) => s, None => return None };
    let updated = match str_member(j, "updated") { Some(s) => s, None => return None };
    let time_deleted = match str_member(j, "timeDeleted") { Some(s) => s, None => return None };
    let temporary_hold = match bool_member(j, "temporaryHold") {
        Some(b) => b,
        None => return None,
    };
    let event_based_hold = match bool_member(j, "eventBasedHold") {
        Some(b) => b,
        None => return None,
    };
    let retention_expiration_time = match str_member(j, "retentionExpirationTime") {
        Some(s) => s,
        None => return None,
    };
    let storage_class = match str_member(j, "storageClass") { Some(s) => s, None => return None };
    let time_storage_class_updated = match str_member(j, "timeStorageClassUpdated") {
        Some(s) => s,
        None => return None,
    };
    let size = match u64_member(j, "size") { Some(n) => n, None => return None };
    let md5_hash = match str_member(j, "md5Hash") { Some(s) => s, None => return None };
    let media_link = match str_member(j, "mediaLink") { Some(s) => s, None => return None };
    let content_encoding = match str_member(j, "contentEncoding") {
        Some(s) => s,
        None => return None,
    };
    let content_disposition = match str_member(j, "contentDisposition") {
        Some(s) => s,
        None => return None,
    };
    let content_language = match str_member(j, "contentLanguage") {
        Some(s) => s,
        None => return None,
    };
    let cache_control = match str_member(j, "cacheControl") { Some(s) => s, None => return None };
    let metadata: Option<Vec<(String, String)>> = match member(j, "metadata") {
        None => None,
        Some(m) => match m {
            Json::Obj(entries) => match decode_pairs_suffix(entries, 0) {
                Some(pairs) => Some(pairs),
                None => return None,
            },
            _ => return None,
        },
    };
    let acl_items = match arr_member(j, "acl") { Some(a) => a, None => return None };
    let acl = match decode_acl_suffix(acl_items, 0) { Some(v) => v, None => return None };
    let owner_member = match member(j, "owner") { Some(o) => o, None => return None };
    let owner = match decode_owner(owner_member) { Some(o) => o, None => return None };
    let crc32c = match str_member(j, "crc32c") { Some(s) => s, None => return None };
    let cc = match i64_member(j, "componentCount") { Some(n) => n, None => return None };
    if cc < i32::MIN as i64 || cc > i32::MAX as i64 {
        return None;
    }
    let component_count: i32 = cc as i32;
    let etag = match str_member(j, "etag") { Some(s) => s, None => return None };
    let enc_member = match member(j, "customerEncryption") { Some(e) => e, None => return None };
    let customer_encryption = match decode_customer_encryption(enc_member) {
        Some(e) => e,
        None => return None,
    };
    let kms_key_name = match str_member(j, "kmsKeyName") { Some(s) => s, None => return None };
    let res = ObjectResource {
        kind,
        id,
        self_link,
        name,
        bucket,
        generation,
        metageneration,
        content_type,
        time_created,
        updated,
        time_deleted,
        temporary_hold,
        event_based_hold,
        retention_expiration_time,
        storage_class,
        time_storage_class_updated,
        size,
        md5_hash,
        media_link,
        content_encoding,
        content_disposition,
        content_language,
        cache_control,
        metadata,
        acl,
        owner,
        crc32c,
        component_count,
        etag,
        customer_encryption,
        kms_key_name,
    };
    proof {
        assert(spec_object_present(*j));
        assert(spec_decode_object(*j) == Some(res.model()));
    }
    Some(res)
}

} // verus!
