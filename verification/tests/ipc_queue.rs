use gecko_core::errors::IPCError;
use gecko_core::ipc_connector::IPCConnector;
use gecko_core::ipc_queue::{IPCEvent, IPCQueue, IPCQueueError, WaitAction, WaitEvent};
use gecko_core::messages::{Header, Kind};
use gecko_core::platform::PlatformError;
use nix::errno::Errno;
use std::rc::Rc;

/// What a peer does in one conversation: the header it sends, if it gets
/// that far, and the payload, if it gets that far.
struct Peer {
    header: Option<Result<Header, IPCError>>,
    payload: Option<Result<(Vec<u8>, Vec<u32>), IPCError>>,
    header_asked: u32,
    payload_asked: u32,
}

fn peer(
    header: Result<Header, IPCError>,
    payload: Option<Result<(Vec<u8>, Vec<u32>), IPCError>>,
) -> Peer {
    Peer { header: Some(header), payload, header_asked: 0, payload_asked: 0 }
}

fn gone() -> IPCError {
    IPCError::ReceptionFailure(PlatformError::NoMoreSenders)
}

fn queue_with(keys: &[u32]) -> IPCQueue<&'static str> {
    let mut queue = IPCQueue::new(3, Errno::UnknownErrno).expect("a queue");
    for key in keys {
        let connector = Rc::new(IPCConnector::new(*key, "primitive"));
        assert!(!queue.is_registered(connector.key()));
        queue.add_connector(&connector, 0, Errno::UnknownErrno).expect("registered");
    }
    queue
}

/// Runs one wait the way an event loop does: reports the wake-up, then
/// performs what the queue asks for against the peer, until it returns.
fn wait(
    queue: &mut IPCQueue<&'static str>,
    ready: isize,
    peer: &mut Peer,
) -> Result<Vec<IPCEvent<u32>>, IPCQueueError> {
    assert!(queue.resolves(ready));
    let mut event = WaitEvent::Woken { result: 1, errno: Errno::UnknownErrno, data: ready };
    loop {
        match queue.wait_for_events(event) {
            WaitAction::ReceiveHeader(connector) => {
                peer.header_asked += 1;
                let reception = peer.header.take().expect("one header is asked for");
                event = WaitEvent::Header { connector, reception };
            }
            WaitAction::ReceivePayload(connector, header) => {
                peer.payload_asked += 1;
                let payload = peer.payload.take().expect("one payload is asked for");
                event = WaitEvent::Payload { connector, header, payload };
            }
            WaitAction::Return(result) => return result,
        }
    }
}

#[test]
fn creation_failure_is_handed_on() {
    let created: Result<IPCQueue<()>, IPCQueueError> = IPCQueue::new(-1, Errno::EMFILE);
    match created {
        Err(error) => assert_eq!(
            error,
            IPCQueueError::CreationFailure(PlatformError::KernelQueueError(Errno::EMFILE))
        ),
        Ok(_) => panic!("a queue was made of a failed creation"),
    }
}

#[test]
fn new_queue_is_empty_and_keeps_its_descriptor() {
    let queue: IPCQueue<()> = IPCQueue::new(0, Errno::UnknownErrno).expect("a queue");
    assert_eq!(queue.len(), 0);
    assert_eq!(queue.queue_descriptor(), 0);
    let queue: IPCQueue<()> = IPCQueue::new(17, Errno::EINVAL).expect("a queue");
    assert_eq!(queue.queue_descriptor(), 17);
    assert!(!queue.is_registered(17));
}

#[test]
fn distinct_additions_all_register() {
    let keys = [259u32, 1, 4_000_000_000, 77, 5];
    let mut queue: IPCQueue<usize> = IPCQueue::new(3, Errno::UnknownErrno).expect("a queue");
    let mut added = Vec::new();
    for (place, key) in keys.iter().enumerate() {
        let connector = Rc::new(IPCConnector::new(*key, place));
        assert!(queue.add_connector(&connector, 0, Errno::UnknownErrno).is_ok());
        added.push(connector);
        assert_eq!(queue.len(), place + 1);
    }
    assert_eq!(queue.len(), keys.len());
    for connector in &added {
        let key = connector.key();
        assert!(queue.is_registered(key));
        assert!(queue.resolves(key as isize));
        let found = queue.connector(key).expect("registered");
        assert!(Rc::ptr_eq(found, connector));
        let event: WaitEvent<usize, ()> =
            WaitEvent::Woken { result: 1, errno: Errno::UnknownErrno, data: key as isize };
        match queue.wait_for_events(event) {
            WaitAction::ReceiveHeader(resolved) => {
                assert!(Rc::ptr_eq(&resolved, connector));
                assert_eq!(resolved.key(), key);
                assert_eq!(*resolved.primitive(), *connector.primitive());
            }
            _ => panic!("a ready endpoint is asked for its header"),
        }
    }
    assert_eq!(queue.len(), keys.len());
}

#[test]
fn registry_shares_the_connector_with_its_caller() {
    let mut queue: IPCQueue<String> = IPCQueue::new(3, Errno::UnknownErrno).expect("a queue");
    let connector = Rc::new(IPCConnector::new(9, String::from("port")));
    assert_eq!(Rc::strong_count(&connector), 1);
    queue.add_connector(&connector, 0, Errno::UnknownErrno).expect("registered");
    assert_eq!(Rc::strong_count(&connector), 2);
    let removed = queue.remove_connector(9).expect("was registered");
    assert!(Rc::ptr_eq(&removed, &connector));
    drop(removed);
    assert_eq!(Rc::strong_count(&connector), 1);
    assert_eq!(queue.len(), 0);
    assert!(queue.remove_connector(9).is_none());
}

#[test]
fn registered_key_is_taken() {
    let mut queue: IPCQueue<&str> = IPCQueue::new(3, Errno::UnknownErrno).expect("a queue");
    let first = Rc::new(IPCConnector::new(12, "first"));
    queue.add_connector(&first, 0, Errno::UnknownErrno).expect("registered");
    let second = Rc::new(IPCConnector::new(12, "second"));
    // The key is taken: a caller sees so and must not add the second.
    assert!(queue.is_registered(second.key()));
    assert_eq!(queue.len(), 1);
    assert_eq!(*queue.connector(12).expect("registered").primitive(), "first");
}

#[test]
fn registration_failure_is_handed_on() {
    let mut queue: IPCQueue<()> = IPCQueue::new(3, Errno::UnknownErrno).expect("a queue");
    let connector = Rc::new(IPCConnector::new(21, ()));
    let added = queue.add_connector(&connector, -1, Errno::ENOMEM);
    assert_eq!(
        added,
        Err(IPCQueueError::RegistrationFailure(PlatformError::KernelEventError(Errno::ENOMEM)))
    );
    assert_eq!(queue.len(), 0);
    assert!(!queue.is_registered(21));
    assert_eq!(Rc::strong_count(&connector), 1);
}

#[test]
fn connector_key_is_its_raw_handle() {
    let connector = IPCConnector::new(0xdead_beef, 5u8);
    assert_eq!(connector.raw_handle(), 0xdead_beef);
    assert_eq!(connector.key(), 0xdead_beef);
    assert_eq!(connector.key(), connector.key());
    assert_eq!(*connector.primitive(), 5);
}

#[test]
fn whole_message_is_one_message_event() {
    let mut queue = queue_with(&[5, 6]);
    let header = Header { kind: Kind(2), size: 4 };
    let mut sender = peer(Ok(header), Some(Ok((vec![1, 2, 3, 4], vec![40, 41]))));
    let events = wait(&mut queue, 6, &mut sender).expect("a message");
    assert_eq!(events, vec![IPCEvent::Message(6, header, vec![1, 2, 3, 4], vec![40, 41])]);
    match &events[0] {
        IPCEvent::Message(_, header, payload, _) => assert_eq!(payload.len(), header.size),
        IPCEvent::Disconnect(_) => panic!("a message was sent"),
    }
    assert_eq!((sender.header_asked, sender.payload_asked), (1, 1));
    assert_eq!(queue.len(), 2);
    assert!(queue.is_registered(6));
}

#[test]
fn empty_payload_is_a_message() {
    let mut queue = queue_with(&[8]);
    let header = Header { kind: Kind(1), size: 0 };
    let mut sender = peer(Ok(header), Some(Ok((Vec::new(), Vec::new()))));
    let events = wait(&mut queue, 8, &mut sender).expect("a message");
    assert_eq!(events, vec![IPCEvent::Message(8, header, Vec::new(), Vec::new())]);
    assert!(queue.is_registered(8));
}

#[test]
fn silent_peer_disconnects() {
    let mut queue = queue_with(&[5, 6]);
    let mut sender = peer(Err(gone()), None);
    let events = wait(&mut queue, 5, &mut sender).expect("a disconnection is no error");
    assert_eq!(events, vec![IPCEvent::Disconnect(5)]);
    assert_eq!((sender.header_asked, sender.payload_asked), (1, 0));
    assert!(!queue.is_registered(5));
    assert!(!queue.resolves(5));
    assert!(queue.is_registered(6));
    assert_eq!(queue.len(), 1);
}

#[test]
fn peer_gone_mid_message_disconnects() {
    let mut queue = queue_with(&[5, 6]);
    let header = Header { kind: Kind(2), size: 100 };
    let mut sender = peer(Ok(header), Some(Err(gone())));
    let events = wait(&mut queue, 6, &mut sender).expect("a disconnection is no error");
    assert_eq!(events, vec![IPCEvent::Disconnect(6)]);
    assert_eq!((sender.header_asked, sender.payload_asked), (1, 1));
    assert!(!queue.is_registered(6));
    assert_eq!(queue.len(), 1);
}

#[test]
fn other_header_failure_is_an_error_and_keeps_the_connector() {
    let mut queue = queue_with(&[5]);
    let mut sender = peer(Err(IPCError::ReceptionFailure(PlatformError::KernelReturn(268_451_843))), None);
    let result = wait(&mut queue, 5, &mut sender);
    assert_eq!(
        result,
        Err(IPCQueueError::IPCError(IPCError::ReceptionFailure(PlatformError::KernelReturn(
            268_451_843
        ))))
    );
    assert_eq!(sender.payload_asked, 0);
    assert!(queue.is_registered(5));
}

#[test]
fn other_payload_failure_is_an_error_and_keeps_the_connector() {
    let mut queue = queue_with(&[5]);
    let header = Header { kind: Kind(3), size: 2 };
    let mut sender = peer(Ok(header), Some(Err(IPCError::InvalidAncillary)));
    let result = wait(&mut queue, 5, &mut sender);
    assert_eq!(result, Err(IPCQueueError::IPCError(IPCError::InvalidAncillary)));
    assert!(queue.is_registered(5));
    assert_eq!(queue.len(), 1);
}

#[test]
fn no_more_senders_in_another_error_is_no_disconnection() {
    let mut queue = queue_with(&[5]);
    let mut sender = peer(Err(IPCError::TransmissionFailure(PlatformError::NoMoreSenders)), None);
    let result = wait(&mut queue, 5, &mut sender);
    assert_eq!(
        result,
        Err(IPCQueueError::IPCError(IPCError::TransmissionFailure(PlatformError::NoMoreSenders)))
    );
    assert!(queue.is_registered(5));
}

#[test]
fn failed_wait_is_handed_on() {
    let mut queue = queue_with(&[5]);
    let event: WaitEvent<&str, u32> = WaitEvent::Woken { result: -1, errno: Errno::EINTR, data: 0 };
    match queue.wait_for_events(event) {
        WaitAction::Return(result) => assert_eq!(
            result,
            Err(IPCQueueError::WaitError(PlatformError::KernelEventError(Errno::EINTR)))
        ),
        _ => panic!("a failed wait asks nothing of an endpoint"),
    }
    assert_eq!(queue.len(), 1);
}

#[test]
fn wake_up_that_names_no_endpoint_does_not_resolve() {
    let queue = queue_with(&[5, 4_294_967_295]);
    assert!(queue.resolves(5));
    assert!(queue.resolves(4_294_967_295));
    assert!(!queue.resolves(6));
    assert!(!queue.resolves(-1));
    assert!(!queue.resolves(0));
    assert!(!queue.resolves(4_294_967_296 + 5));
}

#[test]
fn one_event_for_each_wait() {
    let mut queue = queue_with(&[1, 2]);
    let first = Header { kind: Kind(1), size: 1 };
    let second = Header { kind: Kind(2), size: 2 };
    let mut one = peer(Ok(first), Some(Ok((vec![9], Vec::new()))));
    let mut two = peer(Ok(second), Some(Ok((vec![8, 7], vec![3]))));
    let events = wait(&mut queue, 1, &mut one).expect("a message");
    assert_eq!(events.len(), 1);
    assert_eq!((two.header_asked, two.payload_asked), (0, 0));
    let events = wait(&mut queue, 2, &mut two).expect("a message");
    assert_eq!(events, vec![IPCEvent::Message(2, second, vec![8, 7], vec![3])]);
}
