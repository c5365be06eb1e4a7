//! The shared client configuration and the authenticated request builder.
//!
//! A `Client` is immutable after construction and is shared by every
//! resource handle made from it. The builder attaches the bearer token and
//! the JSON content type; it performs no network I/O — the finished
//! [`BuiltRequest`] is plain data that the application sends.

use vstd::prelude::*;

verus! {

/// The HTTP method of a built request.
#[derive(Clone, Copy, Debug, PartialEq, Eq, Structural)]
pub enum HttpMethod {
    Get,
    Post,
    Delete,
}

/// Process-wide configuration: the project the resources live under and
/// the bearer token to present. Token acquisition is the caller's
/// collaborator; this library only consumes the current token.
#[derive(Clone, Debug)]
pub struct Client {
    pub project: String,
    pub token: String,
}

/// A fully formed request, ready to be carried by any HTTP transport: the
/// method, the absolute URI, the authorization header value, the content
/// type (present exactly when a body is sent), and the body text.
#[derive(Clone, Debug, PartialEq, Eq)]
pub struct BuiltRequest {
    pub method: HttpMethod,
    pub uri: String,
    pub authorization: String,
    pub content_type: Option<String>,
    pub body: String,
}

/// The authorization header value for a token.
pub open spec fn spec_bearer(token: Seq<char>) -> Seq<char> {
    "Bearer "@ + token
}

impl Client {
    /// A new client for one project with the current bearer token.
    pub fn new(project: String, token: String) -> (r: Client)
        ensures
            r.project == project,
            r.token == token,
    {
        Client { project, token }
    }

    /// Build an authenticated request: the bearer token goes into the
    /// authorization header, and the JSON content type is set exactly when
    /// a non-empty body is present.
    pub fn build_authenticated(&self, method: HttpMethod, uri: String, body: String) -> (r:
        BuiltRequest)
        ensures
            r.method == method,
            r.uri == uri,
            r.body == body,
            r.authorization@ == spec_bearer(self.token@),
            body@.len() > 0 ==> (r.content_type matches Some(ct) && ct@ == "application/json"@),
            body@.len() == 0 ==> r.content_type is None,
    {
        let authorization = String::from_str("Bearer ").concat(self.token.as_str());
        proof {
            assert(authorization@ =~= spec_bearer(self.token@));
        }
        let content_type: Option<String> = if body.as_str().is_empty() {
            None
        } else {
            Some(String::from_str("application/json"))
        };
        BuiltRequest { method, uri, authorization, content_type, body }
    }
}

} // verus!
