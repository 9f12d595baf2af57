use staking::bytes::{digest_eq, digest_le, u64_to_le_bytes, Address};

fn ramp(first: u8) -> [u8; 32] {
    let mut out = [0u8; 32];
    for i in 0..32 {
        out[i] = first.wrapping_add(i as u8);
    }
    out
}

#[test]
fn little_endian_bytes_match_std() {
    for value in [0u64, 1, 2, 255, 256, 86400, 0x0102_0304_0506_0708, u64::MAX] {
        assert_eq!(u64_to_le_bytes(value), value.to_le_bytes());
    }
}

#[test]
fn little_endian_bytes_of_a_known_value() {
    assert_eq!(
        u64_to_le_bytes(0x0102_0304_0506_0708),
        [0x08, 0x07, 0x06, 0x05, 0x04, 0x03, 0x02, 0x01]
    );
}

#[test]
fn digests_compare_by_their_first_difference() {
    let a = ramp(1);
    let mut b = ramp(1);
    assert!(digest_le(&a, &b));
    assert!(digest_le(&b, &a));
    b[31] = b[31].wrapping_add(1);
    assert!(digest_le(&a, &b));
    assert!(!digest_le(&b, &a));
    let mut c = ramp(1);
    c[0] = 0;
    c[31] = 255;
    assert!(digest_le(&c, &a));
    assert!(!digest_le(&a, &c));
}

#[test]
fn digest_order_agrees_with_slice_order() {
    let samples = [ramp(0), ramp(1), ramp(200), [0u8; 32], [255u8; 32]];
    for a in samples.iter() {
        for b in samples.iter() {
            assert_eq!(digest_le(a, b), a <= b);
            assert_eq!(digest_eq(a, b), a == b);
        }
    }
}

#[test]
fn addresses_are_equal_when_their_bytes_are() {
    let a = Address::new(ramp(3));
    let b = Address::new(ramp(3));
    let c = Address::new(ramp(4));
    assert!(a.same_as(&b));
    assert!(!a.same_as(&c));
    assert_eq!(a.to_bytes(), ramp(3));
}
