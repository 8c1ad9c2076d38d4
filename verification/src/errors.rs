//! Failures of the transport between two processes.

use crate::messages::{Kind, MessageError};
use crate::platform::PlatformError;
use vstd::prelude::*;

verus! {

/// What can go wrong on one endpoint. Every variant that an operating system
/// primitive caused keeps that cause.
#[derive(Debug, PartialEq, Eq)]
pub enum IPCError {
    /// The message itself is malformed.
    BadMessage(MessageError),
    /// The server could not be reached.
    ConnectionFailure(PlatformError),
    /// The endpoint could not be created.
    CreationFailure(PlatformError),
    /// An endpoint handed over by another process could not be rebuilt.
    Deserialize(PlatformError),
    /// The resources sent along with a message are not the expected ones.
    InvalidAncillary,
    /// Nothing could be received.
    ReceptionFailure(PlatformError),
    /// The endpoint could not be prepared for use in another process.
    Serialize(PlatformError),
    /// The operation took too long.
    Timeout,
    /// Nothing could be sent.
    TransmissionFailure(PlatformError),
    /// A message of this kind was not expected here.
    UnexpectedMessage(Kind),
}

impl IPCError {
    /// The operating system cause that this error keeps, if it has one.
    pub open spec fn spec_platform_cause(&self) -> Option<PlatformError> {
        match *self {
            IPCError::ConnectionFailure(cause) => Some(cause),
            IPCError::CreationFailure(cause) => Some(cause),
            IPCError::Deserialize(cause) => Some(cause),
            IPCError::ReceptionFailure(cause) => Some(cause),
            IPCError::Serialize(cause) => Some(cause),
            IPCError::TransmissionFailure(cause) => Some(cause),
            IPCError::BadMessage(_) => None,
            IPCError::InvalidAncillary => None,
            IPCError::Timeout => None,
            IPCError::UnexpectedMessage(_) => None,
        }
    }

    /// A reception that failed because the peer is gone. This is the one
    /// error that ends a conversation in an orderly way.
    pub open spec fn spec_is_disconnect(&self) -> bool {
        *self == IPCError::ReceptionFailure(PlatformError::NoMoreSenders)
    }

    /// Wraps a malformed message.
    pub fn from_message_error(error: MessageError) -> (wrapped: IPCError)
        ensures
            wrapped == IPCError::BadMessage(error),
    {
        IPCError::BadMessage(error)
    }

    /// The operating system cause behind this error, for diagnostics.
    pub fn platform_cause(&self) -> (cause: Option<&PlatformError>)
        ensures
            match cause {
                Some(found) => self.spec_platform_cause() == Some(*found),
                None => self.spec_platform_cause() is None,
            },
    {
        match self {
            IPCError::ConnectionFailure(cause) => Some(cause),
            IPCError::CreationFailure(cause) => Some(cause),
            IPCError::Deserialize(cause) => Some(cause),
            IPCError::ReceptionFailure(cause) => Some(cause),
            IPCError::Serialize(cause) => Some(cause),
            IPCError::TransmissionFailure(cause) => Some(cause),
            _ => None,
        }
    }

    /// Tells the orderly end of a conversation apart from every failure.
    #[verifier::when_used_as_spec(spec_is_disconnect)]
    pub fn is_disconnect(&self) -> (gone: bool)
        ensures
            gone == self.spec_is_disconnect(),
    {
        match self {
            IPCError::ReceptionFailure(cause) => cause.is_peer_gone(),
            _ => false,
        }
    }
}

} // verus!
