use coconut::base64_operation::{base64_round_trip, Base64Operation};
use coconut::byte_operation::ByteVec;

#[test]
fn test_base64() {
    let a = ByteVec::from_base64_string("Vn8=").unwrap();
    assert_eq!("Vn8=".to_string(), a.to_base64_string());
}

#[test]
fn test_encode_exact_value() {
    let a: ByteVec = vec![0x56, 0x7f];
    assert_eq!(a.to_base64_string(), "Vn8=".to_string());
}

#[test]
fn test_decode_exact_value() {
    let a = ByteVec::from_base64_string("Vn8=").unwrap();
    assert_eq!(a, vec![0x56, 0x7f]);
}

#[test]
fn test_decode_failure() {
    let e = ByteVec::from_base64_string("not valid base64!!").unwrap_err();
    assert_eq!(e.code, 1022);
    assert!(e.other_info.is_none());
}

#[test]
fn test_round_trip() {
    let a: ByteVec = vec![0x56, 0x7f];
    let text = a.to_base64_string();
    let back = ByteVec::from_base64_string(text.as_str()).unwrap();
    assert_eq!(back, a);
    assert_eq!(base64_round_trip(&a), a);
}

#[test]
fn test_empty_round_trip() {
    let a: ByteVec = vec![];
    let text = a.to_base64_string();
    assert_eq!(text, "".to_string());
    let back = ByteVec::from_base64_string(text.as_str()).unwrap();
    assert!(back.is_empty());
}

#[test]
fn test_decode_then_encode_is_identity_on_encoded_text() {
    let text = "aGVsbG8gd29ybGQ=";
    let bytes = ByteVec::from_base64_string(text).unwrap();
    assert_eq!(bytes.to_base64_string(), text.to_string());
}
