use clock_offset::clock::now;
use clock_offset::codec::decode;
use clock_offset::emitter::request;

#[test]
fn request_is_sixteen_bytes() {
    assert_eq!(request().unwrap().len(), 16);
}

#[test]
fn request_carries_the_clock_reading() {
    let before = now().unwrap();
    let bytes = request().unwrap();
    let after = now().unwrap();
    let t1 = decode(&bytes).unwrap();
    assert!(before.total() <= t1.total());
    assert!(t1.total() <= after.total());
}
