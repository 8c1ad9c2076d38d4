//! One endpoint of the transport, as far as the queue needs to know it.

use crate::errors::IPCError;
use vstd::prelude::*;

verus! {

/// What identifies an endpoint for as long as it is registered: the number of
/// the platform handle it receives on.
pub type IPCConnectorKey = u32;

/// One endpoint. It holds the number of its receiving handle, from which its
/// key derives, and the platform primitive that does the actual receiving and
/// sending. Neither can be changed once the connector exists.
pub struct IPCConnector<P> {
    handle: u32,
    primitive: P,
}

impl<P> IPCConnector<P> {
    /// The number of the handle this endpoint receives on.
    pub closed spec fn spec_raw_handle(&self) -> u32 {
        self.handle
    }

    /// The platform primitive behind this endpoint.
    pub closed spec fn spec_primitive(&self) -> P {
        self.primitive
    }

    /// The key under which a queue knows this endpoint.
    pub open spec fn spec_key(&self) -> IPCConnectorKey {
        self.spec_raw_handle()
    }

    /// Makes an endpoint of a platform primitive and the number of the
    /// handle it receives on.
    pub fn new(handle: u32, primitive: P) -> (connector: Self)
        ensures
            connector.spec_raw_handle() == handle,
            connector.spec_primitive() == primitive,
    {
        IPCConnector { handle, primitive }
    }

    /// The number that the operating system registers this endpoint under.
    #[verifier::when_used_as_spec(spec_raw_handle)]
    pub fn raw_handle(&self) -> (handle: u32)
        ensures
            handle == self.spec_raw_handle(),
    {
        self.handle
    }

    /// The key of this endpoint. It is the same on every call.
    #[verifier::when_used_as_spec(spec_key)]
    pub fn key(&self) -> (key: IPCConnectorKey)
        ensures
            key == self.spec_key(),
    {
        self.handle
    }

    /// The platform primitive, for whoever performs the input and output.
    pub fn primitive(&self) -> (primitive: &P)
        ensures
            *primitive == self.spec_primitive(),
    {
        &self.primitive
    }
}

/// How an attempt to receive ended, with the orderly disconnection set apart
/// from the failures.
pub enum Reception<T> {
    /// What was asked for has arrived.
    Ready(T),
    /// The peer is gone.
    Disconnected,
    /// The transport failed.
    Failed(IPCError),
}

/// The outcome that a connector's answer stands for.
pub open spec fn spec_classify<T>(result: Result<T, IPCError>) -> Reception<T> {
    match result {
        Ok(received) => Reception::Ready(received),
        Err(error) => if error.spec_is_disconnect() {
            Reception::Disconnected
        } else {
            Reception::Failed(error)
        },
    }
}

/// Sorts a connector's answer into arrival, disconnection and failure.
pub fn classify<T>(result: Result<T, IPCError>) -> (outcome: Reception<T>)
    ensures
        outcome == spec_classify(result),
{
    match result {
        Ok(received) => Reception::Ready(received),
        Err(error) => if error.is_disconnect() {
            Reception::Disconnected
        } else {
            Reception::Failed(error)
        },
    }
}

} // verus!
