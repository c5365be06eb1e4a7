//! Classification of a finished transport exchange into the error taxonomy.
//!
//! The application performs the HTTP call and reports back a
//! [`TransportOutcome`]; everything after that point — mapping status codes
//! to typed errors, and turning a failed body decode into the serialization
//! error — is decided here, exactly as the contracts state.

use vstd::prelude::*;
use crate::error::Error;

verus! {

/// What the transport reported for one request: either a response with its
/// status code and full body text, or a local failure before any response
/// arrived (connection refused, timeout, TLS failure).
pub enum TransportOutcome {
    Completed { status: u16, body: String },
    Failed { cause: String },
}

/// The classification rule: a transport failure wraps its cause, 404 is the
/// distinct not-found error for the named resource, 200 hands the body on
/// for decoding, and every other status is a remote-service error carrying
/// the code and the untruncated body.
pub open spec fn spec_classify(outcome: TransportOutcome, resource: String) -> Result<String, Error> {
    match outcome {
        TransportOutcome::Failed { cause } => Err(Error::Transport { cause }),
        TransportOutcome::Completed { status, body } => {
            if status == 404 {
                Err(Error::NotFound { resource })
            } else if status == 200 {
                Ok(body)
            } else {
                Err(Error::Remote { code: status, message: body })
            }
        },
    }
}

/// Classify one finished exchange. On 200 the raw body is returned for the
/// caller to decode; every other outcome is already a typed error.
pub fn classify_outcome(outcome: TransportOutcome, resource: String) -> (r: Result<String, Error>)
    ensures
        r == spec_classify(outcome, resource),
{
    match outcome {
        TransportOutcome::Failed { cause } => Err(Error::Transport { cause }),
        TransportOutcome::Completed { status, body } => {
            if status == 404 {
                Err(Error::NotFound { resource })
            } else if status == 200 {
                Ok(body)
            } else {
                Err(Error::Remote { code: status, message: body })
            }
        },
    }
}

/// What a decode attempt of a successful (status 200) body yields: the
/// decoded value, or the serialization error — never a panic and never a
/// false success.
pub open spec fn spec_finish_decode<T>(decoded: Option<T>) -> Result<T, Error> {
    match decoded {
        Some(v) => Ok(v),
        None => Err(Error::Serialization),
    }
}

/// Turn the result of decoding a successful response body into the final
/// typed result.
pub fn finish_decode<T>(decoded: Option<T>) -> (r: Result<T, Error>)
    ensures
        r == spec_finish_decode(decoded),
{
    match decoded {
        Some(v) => Ok(v),
        None => Err(Error::Serialization),
    }
}

/// A response with status 404 always classifies to the not-found error for
/// the requested resource, regardless of what the body holds.
pub proof fn lemma_not_found_regardless_of_body(body: String, resource: String)
    ensures
        spec_classify(TransportOutcome::Completed { status: 404, body }, resource)
            == Err::<String, Error>(Error::NotFound { resource }),
{
}

/// A successful status whose body fails schema validation always yields the
/// serialization error — never a false success: the decoded value is absent
/// exactly when the serialization error is returned.
pub proof fn lemma_schema_failure_is_serialization_error<T>(decoded: Option<T>)
    ensures
        spec_finish_decode(decoded) == Err::<T, Error>(Error::Serialization) <==> decoded is None,
        decoded matches Some(v) ==> spec_finish_decode(decoded) == Ok::<T, Error>(v),
{
}

/// Classification is deterministic and total: every transport outcome maps
/// to exactly one of success, transport, not-found or remote, and the
/// not-found and remote kinds carry the status they came from.
pub proof fn lemma_classification_total(outcome: TransportOutcome, resource: String)
    ensures
        match spec_classify(outcome, resource) {
            Ok(body) => outcome matches TransportOutcome::Completed { status, body: b }
                && status == 200 && b == body,
            Err(e) => match e {
                Error::Transport { cause } => outcome == (TransportOutcome::Failed { cause }),
                Error::NotFound { resource: n } => n == resource
                    && (outcome matches TransportOutcome::Completed { status, .. } && status == 404),
                Error::Remote { code, message } => outcome == (TransportOutcome::Completed {
                    status: code,
                    body: message,
                }) && code != 200 && code != 404,
                _ => false,
            },
        },
{
}

} // verus!
