use usbd_test::codec::CodecError;
use usbd_test::codec::REQUEST_LEN;
use usbd_test::codec::RESPONSE_LEN;
use usbd_test::codec::Request;
use usbd_test::codec::decode_request;
use usbd_test::codec::encode_request;
use usbd_test::codec::encode_response;

#[test]
fn decode_request_reads_fields() {
    let mut bytes = vec![0u8; REQUEST_LEN];
    bytes[0] = 1;
    bytes[8] = 5;
    let req = decode_request(&bytes).unwrap();
    assert_eq!(req, Request { req_type: 1, lba: 5 });
}

#[test]
fn decode_request_reads_little_endian() {
    let mut bytes = vec![0u8; REQUEST_LEN];
    bytes[8] = 0x08;
    bytes[9] = 0x07;
    bytes[10] = 0x06;
    bytes[11] = 0x05;
    bytes[12] = 0x04;
    bytes[13] = 0x03;
    bytes[14] = 0x02;
    bytes[15] = 0x01;
    let req = decode_request(&bytes).unwrap();
    assert_eq!(req.req_type, 0);
    assert_eq!(req.lba, 0x0102030405060708);
}

#[test]
fn decode_request_rejects_short_record() {
    let bytes = vec![0u8; REQUEST_LEN - 1];
    assert_eq!(decode_request(&bytes), Err(CodecError::MalformedRequest));
}

#[test]
fn decode_request_rejects_long_record() {
    let bytes = vec![0u8; 24];
    assert_eq!(decode_request(&bytes), Err(CodecError::MalformedRequest));
}

#[test]
fn encode_request_layout() {
    let req = Request { req_type: 1, lba: 0x0102030405060708 };
    let bytes = encode_request(&req);
    let expected = vec![
        1, 0, 0, 0, 0, 0, 0, 0, 0x08, 0x07, 0x06, 0x05, 0x04, 0x03, 0x02, 0x01,
    ];
    assert_eq!(bytes, expected);
}

#[test]
fn decode_then_encode_reproduces_record() {
    let mut bytes = vec![0u8; REQUEST_LEN];
    for (i, b) in bytes.iter_mut().enumerate() {
        *b = (i as u8) * 17 + 3;
    }
    let req = decode_request(&bytes).unwrap();
    assert_eq!(encode_request(&req), bytes);
}

#[test]
fn encode_then_decode_reproduces_request() {
    let req = Request { req_type: 1, lba: u64::MAX - 7 };
    let bytes = encode_request(&req);
    assert_eq!(decode_request(&bytes).unwrap(), req);
}

#[test]
fn encode_response_length_is_fixed() {
    assert_eq!(encode_response(0).len(), RESPONSE_LEN);
    assert_eq!(encode_response(1).len(), RESPONSE_LEN);
    assert_eq!(encode_response(u64::MAX).len(), RESPONSE_LEN);
}

#[test]
fn encode_response_success_is_all_zero() {
    assert_eq!(encode_response(0), vec![0u8; RESPONSE_LEN]);
}

#[test]
fn encode_response_status_little_endian() {
    let bytes = encode_response(0x0102030405060708);
    let expected = vec![
        0x08, 0x07, 0x06, 0x05, 0x04, 0x03, 0x02, 0x01, 0, 0, 0, 0, 0, 0, 0, 0,
    ];
    assert_eq!(bytes, expected);
}
