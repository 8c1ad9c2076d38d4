use gecko_core::errors::IPCError;
use gecko_core::ipc_connector::{classify, Reception};
use gecko_core::messages::{Header, Kind, MessageError, HEADER_SIZE, SIZE_BYTES};
use gecko_core::platform::PlatformError;
use nix::errno::Errno;

#[test]
fn header_is_laid_out_least_significant_byte_first() {
    let header = Header { kind: Kind(7), size: 0x0102_0304 };
    assert_eq!(header.encode(), vec![7, 4, 3, 2, 1, 0, 0, 0, 0]);
    assert_eq!(Header { kind: Kind(0), size: 0 }.encode(), vec![0; 9]);
    assert_eq!(Header { kind: Kind(255), size: 258 }.encode(), vec![255, 2, 1, 0, 0, 0, 0, 0, 0]);
}

#[test]
fn header_takes_nine_bytes() {
    assert_eq!(HEADER_SIZE, 9);
    assert_eq!(SIZE_BYTES, 8);
    assert_eq!(Header { kind: Kind(1), size: usize::MAX }.encode().len(), HEADER_SIZE);
}

#[test]
fn header_is_read_back() {
    for size in [0usize, 1, 255, 256, 65_535, 65_536, 1 << 31, usize::MAX] {
        for kind in [0u8, 1, 200, 255] {
            let header = Header { kind: Kind(kind), size };
            assert_eq!(Header::decode(&header.encode()), Ok(header));
        }
    }
}

#[test]
fn header_is_read_from_bytes() {
    assert_eq!(
        Header::decode(&[3, 0x10, 0x27, 0, 0, 0, 0, 0, 0]),
        Ok(Header { kind: Kind(3), size: 10_000 })
    );
    assert_eq!(
        Header::decode(&[0, 0, 0, 0, 0, 1, 0, 0, 0]),
        Ok(Header { kind: Kind(0), size: 1 << 32 })
    );
}

#[test]
fn bytes_of_another_length_are_no_header() {
    assert_eq!(Header::decode(&[]), Err(MessageError::MalformedHeader));
    assert_eq!(Header::decode(&[1, 0, 0, 0, 0, 0, 0, 0]), Err(MessageError::MalformedHeader));
    assert_eq!(
        Header::decode(&[1, 0, 0, 0, 0, 0, 0, 0, 0, 0]),
        Err(MessageError::MalformedHeader)
    );
}

#[test]
fn decoded_bytes_are_written_back() {
    let bytes = [9u8, 1, 2, 3, 4, 5, 6, 7, 0];
    let header = Header::decode(&bytes).expect("a header");
    assert_eq!(header.encode(), bytes.to_vec());
}

#[test]
fn only_a_failed_reception_without_senders_is_a_disconnection() {
    assert!(IPCError::ReceptionFailure(PlatformError::NoMoreSenders).is_disconnect());
    assert!(!IPCError::ReceptionFailure(PlatformError::KernelReturn(5)).is_disconnect());
    assert!(!IPCError::ReceptionFailure(PlatformError::KernelEventError(Errno::EBADF))
        .is_disconnect());
    assert!(!IPCError::ReceptionFailure(PlatformError::KernelQueueError(Errno::EBADF))
        .is_disconnect());
    assert!(!IPCError::TransmissionFailure(PlatformError::NoMoreSenders).is_disconnect());
    assert!(!IPCError::ConnectionFailure(PlatformError::NoMoreSenders).is_disconnect());
    assert!(!IPCError::CreationFailure(PlatformError::NoMoreSenders).is_disconnect());
    assert!(!IPCError::Deserialize(PlatformError::NoMoreSenders).is_disconnect());
    assert!(!IPCError::Serialize(PlatformError::NoMoreSenders).is_disconnect());
    assert!(!IPCError::Timeout.is_disconnect());
    assert!(!IPCError::InvalidAncillary.is_disconnect());
    assert!(!IPCError::UnexpectedMessage(Kind(4)).is_disconnect());
    assert!(!IPCError::BadMessage(MessageError::MalformedPayload).is_disconnect());
}

#[test]
fn peer_gone_is_one_cause_among_the_platform_errors() {
    assert!(PlatformError::NoMoreSenders.is_peer_gone());
    assert!(!PlatformError::KernelReturn(0).is_peer_gone());
    assert!(!PlatformError::KernelEventError(Errno::EINTR).is_peer_gone());
    assert!(!PlatformError::KernelQueueError(Errno::EMFILE).is_peer_gone());
}

#[test]
fn errors_keep_their_platform_cause() {
    let cause = PlatformError::KernelEventError(Errno::EAGAIN);
    assert_eq!(
        IPCError::ReceptionFailure(PlatformError::KernelEventError(Errno::EAGAIN)).platform_cause(),
        Some(&cause)
    );
    assert_eq!(
        IPCError::TransmissionFailure(PlatformError::NoMoreSenders).platform_cause(),
        Some(&PlatformError::NoMoreSenders)
    );
    assert_eq!(
        IPCError::ConnectionFailure(PlatformError::KernelReturn(3)).platform_cause(),
        Some(&PlatformError::KernelReturn(3))
    );
    assert_eq!(
        IPCError::CreationFailure(PlatformError::KernelReturn(4)).platform_cause(),
        Some(&PlatformError::KernelReturn(4))
    );
    assert_eq!(
        IPCError::Serialize(PlatformError::KernelReturn(5)).platform_cause(),
        Some(&PlatformError::KernelReturn(5))
    );
    assert_eq!(
        IPCError::Deserialize(PlatformError::KernelReturn(6)).platform_cause(),
        Some(&PlatformError::KernelReturn(6))
    );
    assert_eq!(IPCError::Timeout.platform_cause(), None);
    assert_eq!(IPCError::InvalidAncillary.platform_cause(), None);
    assert_eq!(IPCError::UnexpectedMessage(Kind(1)).platform_cause(), None);
    assert_eq!(IPCError::BadMessage(MessageError::MalformedHeader).platform_cause(), None);
}

#[test]
fn malformed_message_is_wrapped() {
    assert_eq!(
        IPCError::from_message_error(MessageError::MalformedHeader),
        IPCError::BadMessage(MessageError::MalformedHeader)
    );
}

#[test]
fn receptions_are_sorted_three_ways() {
    assert!(matches!(classify(Ok::<u8, IPCError>(4)), Reception::Ready(4)));
    assert!(matches!(
        classify(Err::<u8, IPCError>(IPCError::ReceptionFailure(PlatformError::NoMoreSenders))),
        Reception::Disconnected
    ));
    assert!(matches!(
        classify(Err::<u8, IPCError>(IPCError::Timeout)),
        Reception::Failed(IPCError::Timeout)
    ));
}
