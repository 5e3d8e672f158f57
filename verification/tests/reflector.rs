use clock_offset::clock::now;
use clock_offset::codec::{decode, encode};
use clock_offset::error::Error;
use clock_offset::reflector::{reflect, reply};
use clock_offset::timestamp::Timestamp;

#[test]
fn reply_is_request_then_stamp() {
    let request = encode(Timestamp { sec: 1000, nsec: 0 });
    let answer = reply(&request, Timestamp { sec: 1000, nsec: 500_000_000 }).unwrap();
    assert_eq!(
        answer,
        vec![
            0xe8, 0x03, 0, 0, 0, 0, 0, 0, 0, 0, 0, 0, 0, 0, 0, 0, 0xe8, 0x03, 0, 0, 0, 0, 0, 0,
            0x00, 0x65, 0xcd, 0x1d, 0, 0, 0, 0
        ]
    );
}

#[test]
fn reply_is_thirty_two_bytes() {
    let request: Vec<u8> = vec![7; 16];
    let answer = reply(&request, Timestamp { sec: 1, nsec: 2 }).unwrap();
    assert_eq!(answer.len(), 32);
}

#[test]
fn reply_echoes_the_request_byte_for_byte() {
    let mut request: Vec<u8> = Vec::new();
    for i in 0..16u8 {
        request.push(255 - i.wrapping_mul(17));
    }
    let answer = reply(&request, Timestamp { sec: -3, nsec: 9 }).unwrap();
    assert_eq!(&answer[..16], &request[..]);
}

#[test]
fn reply_echoes_a_request_that_is_no_sensible_timestamp() {
    let request: Vec<u8> = vec![0xff; 16];
    let answer = reply(&request, Timestamp { sec: 0, nsec: 0 }).unwrap();
    assert_eq!(&answer[..16], &request[..]);
    assert_eq!(&answer[16..], &[0u8; 16][..]);
}

#[test]
fn reply_ends_with_the_reflectors_stamp() {
    let request: Vec<u8> = vec![0; 16];
    let tau2 = Timestamp { sec: 1_700_000_000, nsec: 42 };
    let answer = reply(&request, tau2).unwrap();
    assert_eq!(&answer[16..], &encode(tau2)[..]);
    assert_eq!(decode(&answer[16..]), Ok(tau2));
}

#[test]
fn reply_refuses_any_other_length() {
    let tau2 = Timestamp { sec: 1, nsec: 1 };
    for len in [0usize, 1, 8, 15, 17, 31, 32, 33, 2048] {
        let request: Vec<u8> = vec![1; len];
        assert_eq!(
            reply(&request, tau2),
            Err(Error::MalformedPacket { expected: 16, actual: len })
        );
    }
}

#[test]
fn reflect_refuses_any_other_length() {
    for len in [0usize, 1, 15, 17, 32, 1500] {
        let datagram: Vec<u8> = vec![9; len];
        let r = reflect(&datagram);
        assert_eq!(r, Err(Error::MalformedPacket { expected: 16, actual: len }));
        assert!(!r.unwrap_err().is_fatal());
    }
}

#[test]
fn reflect_answers_a_request_with_echo_and_clock() {
    let request = encode(Timestamp { sec: 1000, nsec: 0 });
    let before = now().unwrap();
    let answer = reflect(&request).unwrap();
    let after = now().unwrap();
    assert_eq!(answer.len(), 32);
    assert_eq!(&answer[..16], &request[..]);
    let tau2 = decode(&answer[16..]).unwrap();
    assert!(before.total() <= tau2.total());
    assert!(tau2.total() <= after.total());
}

#[test]
fn reflect_twice_echoes_twice() {
    let request: Vec<u8> = vec![0x5a; 16];
    let first = reflect(&request).unwrap();
    let second = reflect(&request).unwrap();
    assert_eq!(&first[..16], &second[..16]);
    assert_eq!(&first[..16], &request[..]);
}
