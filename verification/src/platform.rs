//! Causes of failure that come straight from an operating system primitive.

use nix::errno::Errno;
use vstd::prelude::*;

verus! {

/// `nix::errno::Errno`, the error number that a failed system call left
/// behind. The library carries such a value from the call to the error that
/// reports it and never looks inside.
#[verifier::external_type_specification]
#[verifier::external_body]
pub struct ExErrno(Errno);

/// Why an operating system primitive failed.
#[derive(Debug, PartialEq, Eq)]
pub enum PlatformError {
    /// The kernel event queue could not be created.
    KernelQueueError(Errno),
    /// Registering with the kernel event queue, or waiting on it, failed.
    KernelEventError(Errno),
    /// A kernel call returned this code instead of success.
    KernelReturn(i32),
    /// Every sender of the peer's endpoint is gone: the peer has left in an
    /// orderly way.
    NoMoreSenders,
}

impl PlatformError {
    /// Whether this cause reports that the peer is gone, which is an orderly
    /// end of the conversation and no fault of the transport.
    pub open spec fn spec_is_peer_gone(&self) -> bool {
        self is NoMoreSenders
    }

    /// Tells the one cause that stands for an orderly disconnection apart
    /// from every other.
    #[verifier::when_used_as_spec(spec_is_peer_gone)]
    pub fn is_peer_gone(&self) -> (gone: bool)
        ensures
            gone == self.spec_is_peer_gone(),
    {
        match self {
            PlatformError::NoMoreSenders => true,
            _ => false,
        }
    }
}

} // verus!
