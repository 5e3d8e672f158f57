use clock_offset::error::Error;

#[test]
fn malformed_packet_is_not_fatal() {
    assert!(!Error::MalformedPacket { expected: 16, actual: 3 }.is_fatal());
    assert!(!Error::MalformedPacket { expected: 32, actual: 0 }.is_fatal());
}

#[test]
fn clock_unavailable_is_fatal() {
    assert!(Error::ClockUnavailable.is_fatal());
}

#[test]
fn malformed_timestamp_is_fatal() {
    assert!(Error::MalformedTimestamp.is_fatal());
}
