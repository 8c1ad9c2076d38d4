//! The event queue of the crash helper: which endpoints it listens to, and
//! what it makes of each thing the operating system reports.
//!
//! The queue itself never blocks. Waiting on the kernel event queue and
//! receiving on an endpoint are done by the caller, who tells the queue how
//! each of them went and is told what to do next.

use crate::errors::IPCError;
use crate::ipc_connector::{classify, spec_classify, IPCConnector, IPCConnectorKey, Reception};
use crate::messages::Header;
use crate::platform::PlatformError;
use nix::errno::Errno;
use std::collections::HashMap;
use std::rc::Rc;
use vstd::prelude::*;

verus! {

broadcast use vstd::std_specs::hash::group_hash_axioms;

/// Why the queue could not do its work.
#[derive(Debug, PartialEq, Eq)]
pub enum IPCQueueError {
    /// The kernel event queue could not be created.
    CreationFailure(PlatformError),
    /// An endpoint could not be registered with the kernel event queue.
    RegistrationFailure(PlatformError),
    /// Waiting on the kernel event queue failed.
    WaitError(PlatformError),
    /// Receiving from an endpoint failed for another reason than the peer
    /// being gone.
    IPCError(IPCError),
}

/// What the queue reports to its caller.
#[derive(Debug, PartialEq, Eq)]
pub enum IPCEvent<A> {
    /// A whole message from the endpoint with this key: its header, its
    /// payload, and the resources that travelled with it.
    Message(IPCConnectorKey, Header, Vec<u8>, Vec<A>),
    /// The peer of the endpoint with this key is gone.
    Disconnect(IPCConnectorKey),
}

/// The registry, as contracts see it: each registered key with its endpoint.
pub type Registry<P> = Map<IPCConnectorKey, Rc<IPCConnector<P>>>;

/// What the caller has to tell the queue.
pub enum WaitEvent<P, A> {
    /// The wait on the kernel event queue came back with this result. Where
    /// the result is negative, `errno` says why; otherwise `data` names the
    /// endpoint that is ready.
    Woken { result: i32, errno: Errno, data: isize },
    /// The header was asked of this endpoint, and this came back.
    Header { connector: Rc<IPCConnector<P>>, reception: Result<Header, IPCError> },
    /// The payload that this header announces was asked of this endpoint, and
    /// this came back: the bytes and the resources sent along.
    Payload {
        connector: Rc<IPCConnector<P>>,
        header: Header,
        payload: Result<(Vec<u8>, Vec<A>), IPCError>,
    },
}

/// What the queue tells the caller to do next.
pub enum WaitAction<P, A> {
    /// Receive a header on this endpoint.
    ReceiveHeader(Rc<IPCConnector<P>>),
    /// Receive, on this endpoint, the payload that this header announces.
    ReceivePayload(Rc<IPCConnector<P>>, Header),
    /// The wait is over, with these events or this error.
    Return(Result<Vec<IPCEvent<A>>, IPCQueueError>),
}

/// A `WaitAction` as contracts see it.
pub enum WaitStep<P, A> {
    ReceiveHeader(Rc<IPCConnector<P>>),
    ReceivePayload(Rc<IPCConnector<P>>, Header),
    Return(Result<Seq<IPCEvent<A>>, IPCQueueError>),
}

impl<P, A> View for WaitAction<P, A> {
    type V = WaitStep<P, A>;

    open spec fn view(&self) -> WaitStep<P, A> {
        match *self {
            WaitAction::ReceiveHeader(connector) => WaitStep::ReceiveHeader(connector),
            WaitAction::ReceivePayload(connector, header) => WaitStep::ReceivePayload(
                connector,
                header,
            ),
            WaitAction::Return(Ok(events)) => WaitStep::Return(Ok(events@)),
            WaitAction::Return(Err(error)) => WaitStep::Return(Err(error)),
        }
    }
}

/// Whether a registry resolves what the kernel reported as ready: the value
/// must be the number of a handle, and an endpoint must be registered under
/// it.
pub open spec fn spec_resolves<P>(registry: Registry<P>, data: isize) -> bool {
    0 <= data <= u32::MAX && registry.contains_key(data as u32)
}

/// Whether every endpoint of a registry stands under its own key.
pub open spec fn keyed_by_own_key<P>(registry: Registry<P>) -> bool {
    forall|key: IPCConnectorKey| #[trigger]
        registry.contains_key(key) ==> registry[key].spec_key() == key
}

/// What the queue makes of one thing it is told: the registry afterwards and
/// the next step.
///
/// - A failed wait ends with `WaitError`.
/// - A successful wait names an endpoint, whose header is to be received.
/// - A header announces a payload, which is to be received next.
/// - A payload completes the message, which is reported as the one event.
/// - The peer being gone, at either reception, removes the endpoint from the
///   registry and is reported as the one event, a disconnection.
/// - Any other failed reception ends with that error and leaves the registry
///   as it was.
pub open spec fn spec_wait_for_events<P, A>(registry: Registry<P>, event: WaitEvent<P, A>) -> (
    Registry<P>,
    WaitStep<P, A>,
) {
    match event {
        WaitEvent::Woken { result, errno, data } => if result < 0 {
            (
                registry,
                WaitStep::Return(
                    Err(IPCQueueError::WaitError(PlatformError::KernelEventError(errno))),
                ),
            )
        } else {
            (registry, WaitStep::ReceiveHeader(registry[data as u32]))
        },
        WaitEvent::Header { connector, reception } => match spec_classify(reception) {
            Reception::Ready(header) => (registry, WaitStep::ReceivePayload(connector, header)),
            Reception::Disconnected => (
                registry.remove(connector.spec_key()),
                WaitStep::Return(Ok(seq![IPCEvent::Disconnect(connector.spec_key())])),
            ),
            Reception::Failed(error) => (
                registry,
                WaitStep::Return(Err(IPCQueueError::IPCError(error))),
            ),
        },
        WaitEvent::Payload { connector, header, payload } => match spec_classify(payload) {
            Reception::Ready(payload) => (
                registry,
                WaitStep::Return(
                    Ok(seq![IPCEvent::Message(connector.spec_key(), header, payload.0, payload.1)]),
                ),
            ),
            Reception::Disconnected => (
                registry.remove(connector.spec_key()),
                WaitStep::Return(Ok(seq![IPCEvent::Disconnect(connector.spec_key())])),
            ),
            Reception::Failed(error) => (
                registry,
                WaitStep::Return(Err(IPCQueueError::IPCError(error))),
            ),
        },
    }
}

/// `Rc::clone`: another handle on the same endpoint. The endpoint that the new
/// handle leads to is the one that the given handle leads to.
#[verifier::external_body]
fn share<P>(connector: &Rc<IPCConnector<P>>) -> (shared: Rc<IPCConnector<P>>)
    ensures
        shared == *connector,
{
    Rc::clone(connector)
}

/// The queue: the descriptor of its kernel event queue and the registry of
/// the endpoints it listens to.
pub struct IPCQueue<P> {
    queue: i32,
    connectors: HashMap<IPCConnectorKey, Rc<IPCConnector<P>>>,
}

impl<P> View for IPCQueue<P> {
    type V = Registry<P>;

    closed spec fn view(&self) -> Registry<P> {
        self.connectors@
    }
}

impl<P> IPCQueue<P> {
    /// The descriptor of the kernel event queue that this queue stands on.
    pub closed spec fn spec_queue_descriptor(&self) -> i32 {
        self.queue
    }

    /// What holds of every queue that this module hands out: its descriptor
    /// is one that the kernel could have given, and each endpoint in the
    /// registry stands under its own key.
    pub open spec fn wf(&self) -> bool {
        &&& self.spec_queue_descriptor() >= 0
        &&& self@.dom().finite()
        &&& keyed_by_own_key(self@)
    }

    /// Makes a queue of what the creation of the kernel event queue returned:
    /// a descriptor or, where that is negative, a failure whose cause is
    /// `errno`. A failure is handed on as `CreationFailure`, and then no queue
    /// exists. A new queue listens to no endpoint.
    pub fn new(descriptor: i32, errno: Errno) -> (created: Result<IPCQueue<P>, IPCQueueError>)
        ensures
            match created {
                Ok(queue) => {
                    &&& queue.wf()
                    &&& descriptor >= 0
                    &&& queue.spec_queue_descriptor() == descriptor
                    &&& queue@ == Registry::<P>::empty()
                },
                Err(error) => {
                    &&& descriptor < 0
                    &&& error == IPCQueueError::CreationFailure(
                        PlatformError::KernelQueueError(errno),
                    )
                },
            },
    {
        if descriptor < 0 {
            return Err(IPCQueueError::CreationFailure(PlatformError::KernelQueueError(errno)));
        }
        let connectors = HashMap::with_capacity(10);
        Ok(IPCQueue { queue: descriptor, connectors })
    }

    /// The descriptor of the kernel event queue, for whoever waits on it.
    pub fn queue_descriptor(&self) -> (descriptor: i32)
        ensures
            descriptor == self.spec_queue_descriptor(),
    {
        self.queue
    }

    /// How many endpoints the queue listens to.
    pub fn len(&self) -> (count: usize)
        ensures
            count == self@.len(),
    {
        self.connectors.len()
    }

    /// Whether an endpoint is registered under this key.
    pub fn is_registered(&self, key: IPCConnectorKey) -> (registered: bool)
        ensures
            registered == self@.contains_key(key),
    {
        self.connectors.contains_key(&key)
    }

    /// Whether the queue can resolve what the kernel reported as ready. A
    /// caller that cannot be sure asks this before it reports a wake-up.
    pub fn resolves(&self, data: isize) -> (known: bool)
        ensures
            known == spec_resolves(self@, data),
    {
        if data < 0 || data as i64 > 0xffff_ffff {
            return false;
        }
        self.connectors.contains_key(&(data as u32))
    }

    /// The endpoint registered under this key, if there is one.
    pub fn connector(&self, key: IPCConnectorKey) -> (found: Option<&Rc<IPCConnector<P>>>)
        ensures
            match found {
                Some(connector) => self@.contains_key(key) && *connector == self@[key],
                None => !self@.contains_key(key),
            },
    {
        self.connectors.get(&key)
    }

    /// Takes an endpoint into the registry, given what its registration with
    /// the kernel event queue returned. A negative result is a failure whose
    /// cause is `errno`: it is handed on as `RegistrationFailure`, and the
    /// registry stays as it was. Otherwise the endpoint stands in the
    /// registry under its key, and every other entry is untouched.
    ///
    /// An endpoint whose key is already registered must not be added again.
    pub fn add_connector(
        &mut self,
        connector: &Rc<IPCConnector<P>>,
        result: i32,
        errno: Errno,
    ) -> (added: Result<(), IPCQueueError>)
        requires
            old(self).wf(),
            !old(self)@.contains_key(connector.spec_key()),
        ensures
            final(self).wf(),
            final(self).spec_queue_descriptor() == old(self).spec_queue_descriptor(),
            match added {
                Ok(()) => {
                    &&& result >= 0
                    &&& final(self)@ == old(self)@.insert(connector.spec_key(), *connector)
                    &&& final(self)@.len() == old(self)@.len() + 1
                },
                Err(error) => {
                    &&& result < 0
                    &&& final(self)@ == old(self)@
                    &&& error == IPCQueueError::RegistrationFailure(
                        PlatformError::KernelEventError(errno),
                    )
                },
            },
    {
        if result < 0 {
            return Err(
                IPCQueueError::RegistrationFailure(PlatformError::KernelEventError(errno)),
            );
        }
        self.connectors.insert(connector.key(), share(connector));
        Ok(())
    }

    /// Takes an endpoint out of the registry at the caller's wish and hands
    /// back the registry's handle on it. A key that is not registered changes
    /// nothing.
    pub fn remove_connector(&mut self, key: IPCConnectorKey) -> (removed: Option<
        Rc<IPCConnector<P>>,
    >)
        requires
            old(self).wf(),
        ensures
            final(self).wf(),
            final(self).spec_queue_descriptor() == old(self).spec_queue_descriptor(),
            final(self)@ == old(self)@.remove(key),
            match removed {
                Some(connector) => old(self)@.contains_key(key) && connector == old(self)@[key],
                None => !old(self)@.contains_key(key),
            },
    {
        self.connectors.remove(&key)
    }

    /// Takes the next thing that happened during a wait and says what to do
    /// about it. A wait begins with a `Woken` event and ends when the action
    /// is `Return`; it yields one event at most, however many endpoints are
    /// ready.
    ///
    /// A wake-up that the registry cannot resolve must not be reported:
    /// `resolves` tells.
    pub fn wait_for_events<A>(&mut self, event: WaitEvent<P, A>) -> (action: WaitAction<P, A>)
        requires
            old(self).wf(),
            event matches WaitEvent::Woken { result, data, .. } ==> result >= 0 ==> spec_resolves(
                old(self)@,
                data,
            ),
        ensures
            final(self).wf(),
            final(self).spec_queue_descriptor() == old(self).spec_queue_descriptor(),
            (final(self)@, action@) == spec_wait_for_events(old(self)@, event),
    {
        match event {
            WaitEvent::Woken { result, errno, data } => {
                if result < 0 {
                    return WaitAction::Return(
                        Err(IPCQueueError::WaitError(PlatformError::KernelEventError(errno))),
                    );
                }
                let key: IPCConnectorKey = data as u32;
                let connector = self.connectors.get(&key).unwrap();
                WaitAction::ReceiveHeader(share(connector))
            },
            WaitEvent::Header { connector, reception } => match classify(reception) {
                Reception::Ready(header) => WaitAction::ReceivePayload(connector, header),
                Reception::Disconnected => self.disconnect(connector.key()),
                Reception::Failed(error) => WaitAction::Return(
                    Err(IPCQueueError::IPCError(error)),
                ),
            },
            WaitEvent::Payload { connector, header, payload } => match classify(payload) {
                Reception::Ready(payload) => {
                    let mut events: Vec<IPCEvent<A>> = Vec::new();
                    events.push(IPCEvent::Message(connector.key(), header, payload.0, payload.1));
                    WaitAction::Return(Ok(events))
                },
                Reception::Disconnected => self.disconnect(connector.key()),
                Reception::Failed(error) => WaitAction::Return(
                    Err(IPCQueueError::IPCError(error)),
                ),
            },
        }
    }

    /// Forgets the endpoint under this key and reports that its peer is gone.
    fn disconnect<A>(&mut self, key: IPCConnectorKey) -> (action: WaitAction<P, A>)
        requires
            old(self).wf(),
        ensures
            final(self).wf(),
            final(self).spec_queue_descriptor() == old(self).spec_queue_descriptor(),
            final(self)@ == old(self)@.remove(key),
            action@ == WaitStep::<P, A>::Return(Ok(seq![IPCEvent::Disconnect(key)])),
    {
        self.connectors.remove(&key);
        let mut events: Vec<IPCEvent<A>> = Vec::new();
        events.push(IPCEvent::Disconnect(key));
        WaitAction::Return(Ok(events))
    }
}

/// The registry after each of these endpoints was added in turn, every
/// registration with the kernel having succeeded.
pub open spec fn spec_add_connectors<P>(
    registry: Registry<P>,
    connectors: Seq<Rc<IPCConnector<P>>>,
) -> Registry<P>
    decreases connectors.len(),
{
    if connectors.len() == 0 {
        registry
    } else {
        spec_add_connectors(registry, connectors.drop_last()).insert(
            connectors.last().spec_key(),
            connectors.last(),
        )
    }
}

/// Whether no two of these endpoints share a key.
pub open spec fn distinct_keys<P>(connectors: Seq<Rc<IPCConnector<P>>>) -> bool {
    forall|i: int, j: int|
        0 <= i < j < connectors.len() ==> #[trigger] connectors[i].spec_key()
            != #[trigger] connectors[j].spec_key()
}

/// A whole wait: the first event, then the endpoint's answer to each thing
/// the queue asks of it. The header answer is used only where the queue asks
/// for a header, the payload answer only where it asks for a payload.
pub open spec fn spec_wait_with_answers<P, A>(
    registry: Registry<P>,
    first: WaitEvent<P, A>,
    header: Result<Header, IPCError>,
    payload: Result<(Vec<u8>, Vec<A>), IPCError>,
) -> (Registry<P>, WaitStep<P, A>) {
    let woken = spec_wait_for_events(registry, first);
    let headed = match woken.1 {
        WaitStep::ReceiveHeader(connector) => spec_wait_for_events(
            woken.0,
            WaitEvent::Header { connector, reception: header },
        ),
        _ => woken,
    };
    match headed.1 {
        WaitStep::ReceivePayload(connector, header) => spec_wait_for_events(
            headed.0,
            WaitEvent::Payload { connector, header, payload },
        ),
        _ => headed,
    }
}

/// Adding endpoints with distinct keys, none of them registered before,
/// grows the registry by exactly their number, keeps it well keyed, leaves
/// the earlier entries alone, and puts each of the new endpoints under its
/// own key.
pub proof fn lemma_distinct_additions_all_register<P>(
    registry: Registry<P>,
    connectors: Seq<Rc<IPCConnector<P>>>,
)
    requires
        registry.dom().finite(),
        keyed_by_own_key(registry),
        distinct_keys(connectors),
        forall|i: int|
            0 <= i < connectors.len() ==> !registry.contains_key(
                #[trigger] connectors[i].spec_key(),
            ),
    ensures
        spec_add_connectors(registry, connectors).dom().finite(),
        spec_add_connectors(registry, connectors).len() == registry.len() + connectors.len(),
        keyed_by_own_key(spec_add_connectors(registry, connectors)),
        forall|key: IPCConnectorKey|
            registry.contains_key(key) ==> #[trigger] spec_add_connectors(
                registry,
                connectors,
            ).contains_key(key) && spec_add_connectors(registry, connectors)[key] == registry[key],
        forall|key: IPCConnectorKey| #[trigger]
            spec_add_connectors(registry, connectors).contains_key(key) ==> registry.contains_key(
                key,
            ) || exists|i: int|
                0 <= i < connectors.len() && #[trigger] connectors[i].spec_key() == key,
        forall|i: int|
            0 <= i < connectors.len() ==> {
                let key = #[trigger] connectors[i].spec_key();
                &&& spec_add_connectors(registry, connectors).contains_key(key)
                &&& spec_add_connectors(registry, connectors)[key] == connectors[i]
            },
    decreases connectors.len(),
{
    if connectors.len() > 0 {
        let earlier = connectors.drop_last();
        let before = spec_add_connectors(registry, earlier);
        let after = spec_add_connectors(registry, connectors);
        let newest = connectors.last();
        assert(earlier.len() == connectors.len() - 1);
        assert(forall|i: int| 0 <= i < earlier.len() ==> earlier[i] == connectors[i]);
        assert(distinct_keys(earlier));
        lemma_distinct_additions_all_register(registry, earlier);
        assert(!before.contains_key(newest.spec_key())) by {
            if before.contains_key(newest.spec_key()) {
                let i = choose|i: int|
                    0 <= i < earlier.len() && #[trigger] earlier[i].spec_key()
                        == newest.spec_key();
                assert(earlier[i] == connectors[i]);
                assert(connectors[i].spec_key() != connectors[connectors.len() - 1].spec_key());
            }
        }
        assert(after == before.insert(newest.spec_key(), newest));
        assert forall|key: IPCConnectorKey| #[trigger] after.contains_key(key) implies registry.contains_key(
            key,
        ) || exists|i: int| 0 <= i < connectors.len() && #[trigger] connectors[i].spec_key() == key by {
            if key == newest.spec_key() {
                assert(connectors[connectors.len() - 1].spec_key() == key);
            } else if !registry.contains_key(key) {
                let i = choose|i: int|
                    0 <= i < earlier.len() && #[trigger] earlier[i].spec_key() == key;
                assert(earlier[i] == connectors[i]);
            }
        }
        assert forall|i: int| 0 <= i < connectors.len() implies {
            let key = #[trigger] connectors[i].spec_key();
            &&& after.contains_key(key)
            &&& after[key] == connectors[i]
        } by {
            if i < earlier.len() {
                assert(earlier[i] == connectors[i]);
                assert(before.contains_key(earlier[i].spec_key()));
                assert(connectors[i].spec_key() != connectors[connectors.len() - 1].spec_key());
            }
        }
    }
}

/// A wake-up whose value is a registered key is resolved to the endpoint
/// under that key: its header is what the queue asks for next.
pub proof fn lemma_registered_key_is_resolved<P, A>(
    registry: Registry<P>,
    key: IPCConnectorKey,
    result: i32,
    errno: Errno,
    data: isize,
)
    requires
        registry.contains_key(key),
        result >= 0,
        data == key,
    ensures
        spec_resolves(registry, data),
        spec_wait_for_events::<P, A>(registry, WaitEvent::Woken { result, errno, data }) == (
            registry,
            WaitStep::<P, A>::ReceiveHeader(registry[key]),
        ),
{
}

/// Once an endpoint stands in the registry, its key is taken: a second
/// addition under that key does not meet what `add_connector` requires, and
/// the entry is the endpoint that was added first.
pub proof fn lemma_added_key_is_taken<P>(registry: Registry<P>, connector: Rc<IPCConnector<P>>)
    ensures
        registry.insert(connector.spec_key(), connector).contains_key(connector.spec_key()),
        registry.insert(connector.spec_key(), connector)[connector.spec_key()] == connector,
{
}

/// A wait that begins with a wake-up is over after the endpoint's two
/// answers at the latest, and it yields one event or an error: never none,
/// never two.
pub proof fn lemma_wait_ends_with_one_event<P, A>(
    registry: Registry<P>,
    result: i32,
    errno: Errno,
    data: isize,
    header: Result<Header, IPCError>,
    payload: Result<(Vec<u8>, Vec<A>), IPCError>,
)
    ensures
        spec_wait_with_answers::<P, A>(
            registry,
            WaitEvent::Woken { result, errno, data },
            header,
            payload,
        ).1 matches WaitStep::Return(outcome) && (outcome matches Ok(events) ==> events.len()
            == 1),
{
}

/// A peer that sends a header and then exactly the payload that the header
/// announces is reported as one message: the key of its endpoint, that
/// header, those bytes, and the resources that came with them. The registry
/// stays as it was.
pub proof fn lemma_whole_message_is_delivered<P, A>(
    registry: Registry<P>,
    result: i32,
    errno: Errno,
    data: isize,
    header: Header,
    bytes: Vec<u8>,
    ancillary: Vec<A>,
)
    requires
        keyed_by_own_key(registry),
        result >= 0,
        spec_resolves(registry, data),
        bytes@.len() == header.size,
    ensures
        spec_wait_with_answers::<P, A>(
            registry,
            WaitEvent::Woken { result, errno, data },
            Ok(header),
            Ok((bytes, ancillary)),
        ) == (
            registry,
            WaitStep::<P, A>::Return(
                Ok(seq![IPCEvent::Message(data as u32, header, bytes, ancillary)]),
            ),
        ),
        spec_wait_with_answers::<P, A>(
            registry,
            WaitEvent::Woken { result, errno, data },
            Ok(header),
            Ok((bytes, ancillary)),
        ).1 matches WaitStep::Return(Ok(events)) && events.len() == 1 && (
        events[0] matches IPCEvent::Message(_, _, delivered, _) && delivered@.len()
            == header.size),
{
    let events = seq![IPCEvent::Message(data as u32, header, bytes, ancillary)];
    assert(events.len() == 1);
    assert(events[0] == IPCEvent::Message(data as u32, header, bytes, ancillary));
}

/// A header that announces no payload at all still makes a message, with an
/// empty payload. It is neither a disconnection nor an error.
pub proof fn lemma_empty_payload_is_a_message<P, A>(
    registry: Registry<P>,
    result: i32,
    errno: Errno,
    data: isize,
    header: Header,
    bytes: Vec<u8>,
    ancillary: Vec<A>,
)
    requires
        keyed_by_own_key(registry),
        result >= 0,
        spec_resolves(registry, data),
        header.size == 0,
        bytes@.len() == 0,
    ensures
        spec_wait_with_answers::<P, A>(
            registry,
            WaitEvent::Woken { result, errno, data },
            Ok(header),
            Ok((bytes, ancillary)),
        ) == (
            registry,
            WaitStep::<P, A>::Return(
                Ok(seq![IPCEvent::Message(data as u32, header, bytes, ancillary)]),
            ),
        ),
{
    lemma_whole_message_is_delivered(registry, result, errno, data, header, bytes, ancillary);
}

/// A peer that is gone before it sent anything is reported as one
/// disconnection of its endpoint, never as an error, whatever a later
/// reception would have brought. Its endpoint leaves the registry.
pub proof fn lemma_silent_peer_disconnects<P, A>(
    registry: Registry<P>,
    result: i32,
    errno: Errno,
    data: isize,
    payload: Result<(Vec<u8>, Vec<A>), IPCError>,
)
    requires
        keyed_by_own_key(registry),
        result >= 0,
        spec_resolves(registry, data),
    ensures
        spec_wait_with_answers::<P, A>(
            registry,
            WaitEvent::Woken { result, errno, data },
            Err(IPCError::ReceptionFailure(PlatformError::NoMoreSenders)),
            payload,
        ) == (
            registry.remove(data as u32),
            WaitStep::<P, A>::Return(Ok(seq![IPCEvent::Disconnect(data as u32)])),
        ),
{
}

/// A peer that is gone after its header and before its whole payload is
/// reported in the same way: one disconnection, no message, no error.
pub proof fn lemma_peer_gone_mid_message_disconnects<P, A>(
    registry: Registry<P>,
    result: i32,
    errno: Errno,
    data: isize,
    header: Header,
)
    requires
        keyed_by_own_key(registry),
        result >= 0,
        spec_resolves(registry, data),
    ensures
        spec_wait_with_answers::<P, A>(
            registry,
            WaitEvent::Woken { result, errno, data },
            Ok(header),
            Err(IPCError::ReceptionFailure(PlatformError::NoMoreSenders)),
        ) == (
            registry.remove(data as u32),
            WaitStep::<P, A>::Return(Ok(seq![IPCEvent::Disconnect(data as u32)])),
        ),
{
}

/// A reception that fails for any other reason than the peer being gone ends
/// the wait with that error, wrapped, and leaves the registry as it was: the
/// queue forgets an endpoint only when its peer is gone.
pub proof fn lemma_other_failures_are_handed_on<P, A>(
    registry: Registry<P>,
    result: i32,
    errno: Errno,
    data: isize,
    header: Header,
    cause: IPCError,
    payload: Result<(Vec<u8>, Vec<A>), IPCError>,
)
    requires
        result >= 0,
        spec_resolves(registry, data),
        !cause.spec_is_disconnect(),
    ensures
        spec_wait_with_answers::<P, A>(
            registry,
            WaitEvent::Woken { result, errno, data },
            Err(cause),
            payload,
        ) == (registry, WaitStep::<P, A>::Return(Err(IPCQueueError::IPCError(cause)))),
        spec_wait_with_answers::<P, A>(
            registry,
            WaitEvent::<P, A>::Woken { result, errno, data },
            Ok(header),
            Err(cause),
        ) == (registry, WaitStep::<P, A>::Return(Err(IPCQueueError::IPCError(cause)))),
{
}

/// A wait on the kernel event queue that fails ends with `WaitError` and that
/// cause, and nothing is asked of any endpoint.
pub proof fn lemma_failed_wait_is_handed_on<P, A>(
    registry: Registry<P>,
    result: i32,
    errno: Errno,
    data: isize,
    header: Result<Header, IPCError>,
    payload: Result<(Vec<u8>, Vec<A>), IPCError>,
)
    requires
        result < 0,
    ensures
        spec_wait_with_answers::<P, A>(
            registry,
            WaitEvent::Woken { result, errno, data },
            header,
            payload,
        ) == (
            registry,
            WaitStep::<P, A>::Return(
                Err(IPCQueueError::WaitError(PlatformError::KernelEventError(errno))),
            ),
        ),
{
}

} // verus!
