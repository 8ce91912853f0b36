//! 24-bit integer codec tests.

use max112x::u24;

#[test]
fn u24_to_u32_reconstructs_the_bytes_exactly() {
    let cases: Vec<(u8, u8, u8)> = vec![
        (0x00, 0x00, 0x00),
        (0x00, 0x00, 0x01),
        (0x12, 0x34, 0x56),
        (0x80, 0x00, 0x00),
        (0xff, 0xff, 0xff),
        (0x01, 0x00, 0xff),
    ];
    for (b0, b1, b2) in cases {
        let value = u24::from_be_bytes([b0, b1, b2]);
        let expected = ((b0 as u32) << 16) | ((b1 as u32) << 8) | (b2 as u32);
        assert_eq!(u32::from(value), expected);
    }
}

#[test]
fn u24_round_trips_through_be_bytes() {
    let value = u24::from_be_bytes([0xab, 0xcd, 0xef]);
    assert_eq!(value.to_be_bytes(), [0xab, 0xcd, 0xef]);
}

#[test]
fn u24_to_le_bytes_reverses_the_byte_order() {
    let value = u24::from_be_bytes([0xab, 0xcd, 0xef]);
    assert_eq!(value.to_le_bytes(), [0xef, 0xcd, 0xab]);
}

#[test]
fn u24_to_i32_sign_extends_from_bit_23() {
    assert_eq!(i32::from(u24::from_be_bytes([0x00, 0x00, 0x00])), 0);
    assert_eq!(i32::from(u24::from_be_bytes([0x7f, 0xff, 0xff])), 8_388_607);
    assert_eq!(i32::from(u24::from_be_bytes([0x80, 0x00, 0x00])), -8_388_608);
    assert_eq!(i32::from(u24::from_be_bytes([0xff, 0xff, 0xff])), -1);
    assert_eq!(i32::from(u24::from_be_bytes([0xff, 0xff, 0xfe])), -2);
}
