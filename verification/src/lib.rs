//! Client-side core for a cloud messaging and object-storage service.
//!
//! The library owns the logic of the request/response pipeline: building
//! authenticated requests, classifying response status codes into a typed
//! error taxonomy, decoding response bodies, and the pull/acknowledge
//! lifecycle of subscription message delivery. Network transport itself is
//! left to the surrounding application, which hands each response back as a
//! plain status and body.

pub mod client;
pub mod decode;
pub mod error;
pub mod executor;
pub mod json;
pub mod jsonval;
pub mod message;
pub mod object;
pub mod subscription;
pub mod topic;
pub mod tracker;
pub mod uri;

pub use client::Client;
pub use error::Error;
pub use message::EncodedMessage;
pub use message::FromPubSubMessage;
pub use subscription::Subscription;
pub use topic::Topic;
