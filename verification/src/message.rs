//! The wire message envelope handed back by a pull.

use vstd::prelude::*;
use crate::error::Error;

verus! {

/// One delivered message: the transport-encoded payload text plus its
/// delivery metadata. `ack_id` is the opaque token that acknowledges or
/// extends this delivery; `ordering_key` is carried as opaque text (empty
/// where the service sent none); `attempt` counts deliveries of the same
/// message, and grows when an expired delivery is pulled again.
#[derive(Debug, Clone, PartialEq, Eq)]
pub struct EncodedMessage {
    pub ack_id: String,
    pub message_id: String,
    pub data: String,
    pub publish_time: String,
    pub ordering_key: String,
    pub attempt: u64,
}

/// The mathematical content of one delivered message: every field as a
/// plain sequence or number.
#[verifier::ext_equal]
pub ghost struct EncodedMessageModel {
    pub ack_id: Seq<char>,
    pub message_id: Seq<char>,
    pub data: Seq<char>,
    pub publish_time: Seq<char>,
    pub ordering_key: Seq<char>,
    pub attempt: u64,
}

impl EncodedMessage {
    /// What this message holds, field by field.
    pub open spec fn model(self) -> EncodedMessageModel {
        EncodedMessageModel {
            ack_id: self.ack_id@,
            message_id: self.message_id@,
            data: self.data@,
            publish_time: self.publish_time@,
            ordering_key: self.ordering_key@,
            attempt: self.attempt,
        }
    }
}

/// A payload type that can be read out of the wire envelope, letting
/// callers define their own message body types while reusing the envelope.
pub trait FromPubSubMessage where Self: core::marker::Sized {
    /// Convert one delivered envelope into the payload type, or report the
    /// failure as a typed error.
    fn from(message: EncodedMessage) -> Result<Self, Error>;
}

} // verus!
