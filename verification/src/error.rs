//! The error taxonomy: every failure a caller can see is one of these,
//! so retry policy can be decided per kind.

use vstd::prelude::*;

verus! {

/// A typed failure of a client operation.
///
/// The kinds are kept distinct on purpose: `Unbound` is caller misuse,
/// `Transport` is a local network-level failure (retryable by caller
/// policy), `NotFound` is the remote's explicit 404 (so "already gone" can
/// be treated as recoverable), `Remote` is any other non-success status
/// (code and raw body kept for diagnostics), and `Serialization` is a local
/// decode failure of a response body.
#[derive(Debug, Clone, PartialEq, Eq)]
pub enum Error {
    /// A handle was used without a bound client: a precondition violation,
    /// reported before any network activity.
    Unbound,
    /// The transport failed locally (connection, timeout, TLS); the cause
    /// text wraps the underlying failure.
    Transport { cause: String },
    /// The remote answered 404 for the named resource.
    NotFound { resource: String },
    /// The remote answered with a non-success status other than 404; the
    /// full response body is kept untruncated.
    Remote { code: u16, message: String },
    /// A response body could not be decoded as the expected shape.
    Serialization,
}

impl Error {
    /// True exactly for the not-found kind.
    pub fn is_not_found(&self) -> (r: bool)
        ensures
            r == (self is NotFound),
    {
        match self {
            Error::NotFound { .. } => true,
            _ => false,
        }
    }

    /// True exactly for the precondition-violation kind.
    pub fn is_unbound(&self) -> (r: bool)
        ensures
            r == (self is Unbound),
    {
        match self {
            Error::Unbound => true,
            _ => false,
        }
    }

    /// True exactly for the transport kind.
    pub fn is_transport(&self) -> (r: bool)
        ensures
            r == (self is Transport),
    {
        match self {
            Error::Transport { .. } => true,
            _ => false,
        }
    }

    /// True exactly for the local decode-failure kind.
    pub fn is_serialization(&self) -> (r: bool)
        ensures
            r == (self is Serialization),
    {
        match self {
            Error::Serialization => true,
            _ => false,
        }
    }

    /// The remote status code, where one was received.
    pub fn remote_code(&self) -> (r: Option<u16>)
        ensures
            self matches Error::Remote { code, .. } ==> r matches Some(c) && c == code,
            !(self is Remote) ==> r is None,
    {
        match self {
            Error::Remote { code, .. } => Some(*code),
            _ => None,
        }
    }
}

} // verus!
