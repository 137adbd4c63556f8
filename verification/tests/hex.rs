use usbd_test::hex::buf2string;

#[test]
fn buf2string_formats_bytes() {
    assert_eq!(buf2string(&[0xAB, 0x01, 0xFF]), "AB 01 FF ");
}

#[test]
fn buf2string_empty_is_empty() {
    assert_eq!(buf2string(&[]), "");
}

#[test]
fn buf2string_matches_two_digit_uppercase_hex() {
    for b in 0..=255u8 {
        assert_eq!(buf2string(&[b]), format!("{:02X} ", b));
    }
}
