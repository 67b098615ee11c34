//! The error kinds the node surfaces to callers.
//!
//! Transport failures arrive from the I/O layer as plain messages; protocol
//! and registration failures carry the envelope error or the offending
//! value.

use crate::header::InvalidHeaderError;
use crate::rosxmlrpc::ResponseError;
use vstd::prelude::*;

verus! {

/// Why a subscription could not be made or maintained.
#[derive(Debug)]
pub enum SubscriptionError {
    /// An error occurred during transport.
    TransportError(String),
    /// The node already subscribes to the topic.
    DuplicateSubscription { topic: String },
    /// Communication with the master node failed.
    MasterCommunicationError(ResponseError),
    /// A publisher responded with a non-TCPROS protocol.
    ProtocolMismatch(String),
    /// An error occurred while connecting to a publisher.
    PublisherConnectError(PublisherConnectError),
    /// Calling `requestTopic` on the publisher failed.
    RequestTopicError(ResponseError),
}

/// Why a publication could not be made.
#[derive(Debug)]
pub enum PublisherError {
    /// The listen socket could not be bound.
    BindError(String),
    /// The local address of the listen socket could not be read.
    LocalAddressError(String),
    /// An error occurred during transport.
    TransportError(String),
    /// Registering the publisher with the master failed.
    RegistrationError(ResponseError),
}

/// Why an accepted subscriber was turned away.
#[derive(Debug)]
pub enum PublisherSubcribeError {
    /// An error occurred during transport.
    TransportError(String),
    /// The subscriber's handshake header was invalid.
    InvalidHeader(InvalidHeaderError),
}

/// Why a message could not be sent.
#[derive(Debug)]
pub enum PublisherSendError {
    /// The message could not be encoded.
    EncodingError(String),
}

/// Why a connection to a publisher failed.
#[derive(Debug)]
pub enum PublisherConnectError {
    /// The queue of pending connections is full.
    ConnectionQueueFull,
    /// An error occurred during transport.
    TransportError(String),
}

} // verus!
