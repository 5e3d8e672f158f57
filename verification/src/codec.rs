//! The wire format of a timestamp: sixteen bytes, the seconds and then the
//! nanoseconds, each a signed 64-bit integer in little-endian byte order.

use vstd::prelude::*;
use vstd::bytes::*;
use vstd::slice::slice_subrange;
use crate::error::Error;
use crate::timestamp::Timestamp;

verus! {

/// Bytes taken by one field of a timestamp.
pub const FIELD_SIZE: usize = 8;

/// Bytes taken by one timestamp.
pub const PAYLOAD_SIZE: usize = 16;

/// The eight bytes that stand for `x`: the base-256 digits of its
/// two's-complement image, least significant first.
pub open spec fn field_bytes(x: i64) -> Seq<u8> {
    let u: int = (x as int) % 0x1_0000_0000_0000_0000;
    seq![
        (u % 0x100) as u8,
        (u / 0x100 % 0x100) as u8,
        (u / 0x1_0000 % 0x100) as u8,
        (u / 0x100_0000 % 0x100) as u8,
        (u / 0x1_0000_0000 % 0x100) as u8,
        (u / 0x100_0000_0000 % 0x100) as u8,
        (u / 0x1_0000_0000_0000 % 0x100) as u8,
        (u / 0x100_0000_0000_0000 % 0x100) as u8,
    ]
}

/// The unsigned number whose base-256 digits, least significant first, are
/// the first eight bytes of `s`.
pub open spec fn field_magnitude(s: Seq<u8>) -> int
    recommends
        s.len() >= 8,
{
    s[0] as int
        + s[1] as int * 0x100
        + s[2] as int * 0x1_0000
        + s[3] as int * 0x100_0000
        + s[4] as int * 0x1_0000_0000
        + s[5] as int * 0x100_0000_0000
        + s[6] as int * 0x1_0000_0000_0000
        + s[7] as int * 0x100_0000_0000_0000
}

/// The signed number that the first eight bytes of `s` stand for.
pub open spec fn field_value(s: Seq<u8>) -> i64
    recommends
        s.len() >= 8,
{
    let u: int = field_magnitude(s);
    if u < 0x8000_0000_0000_0000 {
        u as i64
    } else {
        (u - 0x1_0000_0000_0000_0000) as i64
    }
}

/// The sixteen bytes that stand for `t`.
pub open spec fn spec_encode(t: Timestamp) -> Seq<u8> {
    field_bytes(t.sec) + field_bytes(t.nsec)
}

/// The timestamp that the first sixteen bytes of `s` stand for.
pub open spec fn spec_decode(s: Seq<u8>) -> Timestamp
    recommends
        s.len() >= 16,
{
    Timestamp { sec: field_value(s.subrange(0, 8)), nsec: field_value(s.subrange(8, 16)) }
}

/// Shifting and masking a 64-bit number picks its base-256 digits.
proof fn lemma_u64_digits(u: u64)
    by (bit_vector)
    ensures
        (u & 0xff) == u % 0x100,
        ((u >> 8) & 0xff) == u / 0x100 % 0x100,
        ((u >> 16) & 0xff) == u / 0x1_0000 % 0x100,
        ((u >> 24) & 0xff) == u / 0x100_0000 % 0x100,
        ((u >> 32) & 0xff) == u / 0x1_0000_0000 % 0x100,
        ((u >> 40) & 0xff) == u / 0x100_0000_0000 % 0x100,
        ((u >> 48) & 0xff) == u / 0x1_0000_0000_0000 % 0x100,
        ((u >> 56) & 0xff) == u / 0x100_0000_0000_0000 % 0x100,
{
}

/// A 64-bit number is the sum of its base-256 digits, each in its place.
proof fn lemma_u64_from_digits(u: u64)
    by (bit_vector)
    ensures
        u == (u & 0xff) + ((u >> 8) & 0xff) * 0x100 + ((u >> 16) & 0xff) * 0x1_0000 + ((u >> 24)
            & 0xff) * 0x100_0000 + ((u >> 32) & 0xff) * 0x1_0000_0000 + ((u >> 40) & 0xff)
            * 0x100_0000_0000 + ((u >> 48) & 0xff) * 0x1_0000_0000_0000 + ((u >> 56) & 0xff)
            * 0x100_0000_0000_0000,
        (u & 0xff) < 0x100,
        ((u >> 8) & 0xff) < 0x100,
        ((u >> 16) & 0xff) < 0x100,
        ((u >> 24) & 0xff) < 0x100,
        ((u >> 32) & 0xff) < 0x100,
        ((u >> 40) & 0xff) < 0x100,
        ((u >> 48) & 0xff) < 0x100,
        ((u >> 56) & 0xff) < 0x100,
{
}

/// The unsigned image of a signed number is the number modulo 2^64, and
/// reading the image as signed gives the number back.
proof fn lemma_signed_image(x: i64)
    ensures
        (x as u64) as int == (x as int) % 0x1_0000_0000_0000_0000,
        (x as u64) as i64 == x,
{
    assert(x >= 0 ==> (x as u64) == x) by (bit_vector);
    assert(x < 0 ==> (x as u64) == x + 0x1_0000_0000_0000_0000) by (bit_vector);
    assert((x as u64) as i64 == x) by (bit_vector);
}

/// Reading an unsigned number as signed takes 2^64 off the upper half of the
/// range, and reading the result as unsigned gives the number back.
proof fn lemma_unsigned_image(u: u64)
    ensures
        u < 0x8000_0000_0000_0000 ==> (u as i64) as int == u as int,
        u >= 0x8000_0000_0000_0000 ==> (u as i64) as int == u as int - 0x1_0000_0000_0000_0000,
        (u as i64) as u64 == u,
{
    assert(u < 0x8000_0000_0000_0000 ==> (u as i64) == u) by (bit_vector);
    assert(u >= 0x8000_0000_0000_0000 ==> (u as i64) == u - 0x1_0000_0000_0000_0000)
        by (bit_vector);
    assert((u as i64) as u64 == u) by (bit_vector);
}

/// The bytes that the byte library gives for the image of `x` are `field_bytes(x)`.
proof fn lemma_field_bytes(x: i64)
    ensures
        spec_u64_to_le_bytes(x as u64) == field_bytes(x),
{
    let u: u64 = x as u64;
    spec_u64_to_le_bytes_to_open(u);
    lemma_u64_digits(u);
    lemma_signed_image(x);
    assert(spec_u64_to_le_bytes_open(u) =~= field_bytes(x));
}

/// The number that the byte library reads from eight bytes is `field_value`
/// of them.
proof fn lemma_field_value(s: Seq<u8>)
    requires
        s.len() == 8,
    ensures
        spec_u64_from_le_bytes(s) as i64 == field_value(s),
        spec_u64_from_le_bytes(s) as int == field_magnitude(s),
{
    let u: u64 = spec_u64_from_le_bytes(s);
    lemma_auto_spec_u64_to_from_le_bytes();
    assert(spec_u64_to_le_bytes(u) == s);
    spec_u64_to_le_bytes_to_open(u);
    let o = spec_u64_to_le_bytes_open(u);
    lemma_u64_from_digits(u);
    assert(s[0] == o[0] && s[1] == o[1] && s[2] == o[2] && s[3] == o[3] && s[4] == o[4] && s[5]
        == o[5] && s[6] == o[6] && s[7] == o[7]);
    assert(u as int == field_magnitude(s));
    lemma_unsigned_image(u);
}

/// Decoding what was encoded gives the timestamp back.
pub proof fn lemma_decode_encode(t: Timestamp)
    ensures
        spec_encode(t).len() == PAYLOAD_SIZE,
        spec_decode(spec_encode(t)) == t,
{
    let s = spec_encode(t);
    assert(s.subrange(0, 8) =~= field_bytes(t.sec));
    assert(s.subrange(8, 16) =~= field_bytes(t.nsec));
    lemma_field_roundtrip(t.sec);
    lemma_field_roundtrip(t.nsec);
}

/// Encoding what was decoded gives the sixteen bytes back: no two
/// timestamps share an encoding and every sixteen bytes are one.
pub proof fn lemma_encode_decode(s: Seq<u8>)
    requires
        s.len() == PAYLOAD_SIZE,
    ensures
        spec_encode(spec_decode(s)) == s,
{
    lemma_bytes_roundtrip(s.subrange(0, 8));
    lemma_bytes_roundtrip(s.subrange(8, 16));
    assert(spec_encode(spec_decode(s)) =~= s);
}

/// A field read back from its eight bytes is the field.
pub proof fn lemma_field_roundtrip(x: i64)
    ensures
        field_bytes(x).len() == FIELD_SIZE,
        field_value(field_bytes(x)) == x,
{
    lemma_field_bytes(x);
    lemma_auto_spec_u64_to_from_le_bytes();
    lemma_field_value(field_bytes(x));
    lemma_signed_image(x);
}

/// Eight bytes written back from the field they stand for are the same
/// eight bytes.
pub proof fn lemma_bytes_roundtrip(s: Seq<u8>)
    requires
        s.len() == FIELD_SIZE,
    ensures
        field_bytes(field_value(s)) == s,
{
    let u: u64 = spec_u64_from_le_bytes(s);
    lemma_field_value(s);
    lemma_field_bytes(u as i64);
    lemma_unsigned_image(u);
    lemma_auto_spec_u64_to_from_le_bytes();
}

/// The sixteen bytes that stand for `t` on the wire.
pub fn encode(t: Timestamp) -> (bytes: Vec<u8>)
    ensures
        bytes@ == spec_encode(t),
        bytes@.len() == PAYLOAD_SIZE,
{
    let mut bytes: Vec<u8> = u64_to_le_bytes(#[verifier::truncate] (t.sec as u64));
    let mut tail: Vec<u8> = u64_to_le_bytes(#[verifier::truncate] (t.nsec as u64));
    proof {
        lemma_field_bytes(t.sec);
        lemma_field_bytes(t.nsec);
    }
    bytes.append(&mut tail);
    bytes
}

/// The timestamp that stands at `buf[at..at + 16]`.
pub(crate) fn decode_at(buf: &[u8], at: usize) -> (t: Timestamp)
    requires
        at + PAYLOAD_SIZE <= buf.len(),
    ensures
        t == spec_decode(buf@.subrange(at as int, at + PAYLOAD_SIZE)),
{
    let sec_bytes = slice_subrange(buf, at, at + FIELD_SIZE);
    let nsec_bytes = slice_subrange(buf, at + FIELD_SIZE, at + PAYLOAD_SIZE);
    let sec: u64 = u64_from_le_bytes(sec_bytes);
    let nsec: u64 = u64_from_le_bytes(nsec_bytes);
    proof {
        let s = buf@.subrange(at as int, at + PAYLOAD_SIZE);
        assert(s.subrange(0, 8) =~= sec_bytes@);
        assert(s.subrange(8, 16) =~= nsec_bytes@);
        lemma_field_value(sec_bytes@);
        lemma_field_value(nsec_bytes@);
    }
    Timestamp { sec: #[verifier::truncate] (sec as i64), nsec: #[verifier::truncate] (nsec as i64) }
}

/// Reads a timestamp from the first sixteen bytes of `buf`.
///
/// Fails exactly when `buf` holds fewer than sixteen bytes. Bytes after the
/// sixteenth are not looked at, and no value of either field is refused.
pub fn decode(buf: &[u8]) -> (r: Result<Timestamp, Error>)
    ensures
        buf@.len() < PAYLOAD_SIZE ==> r == Err::<Timestamp, Error>(Error::MalformedTimestamp),
        buf@.len() >= PAYLOAD_SIZE ==> r == Ok::<Timestamp, Error>(spec_decode(buf@)),
{
    if buf.len() < PAYLOAD_SIZE {
        Err(Error::MalformedTimestamp)
    } else {
        proof {
            let head = buf@.subrange(0, PAYLOAD_SIZE as int);
            assert(head.subrange(0, 8) =~= buf@.subrange(0, 8));
            assert(head.subrange(8, 16) =~= buf@.subrange(8, 16));
        }
        Ok(decode_at(buf, 0))
    }
}

} // verus!
