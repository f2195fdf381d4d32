//! Tests of the base64 payload codec and its content-type check.

use poem::payload::Base64;
use poem::response::IntoResponse;
use poem::status::StatusCode;

#[test]
fn base64_decodes_request_body() {
    let decoded = Base64::<Vec<u8>>::from_base64(&b"YWJjZGVm".to_vec()).unwrap();
    assert_eq!(decoded.0, b"abcdef".to_vec());
}

#[test]
fn base64_rejects_invalid_body() {
    let err = Base64::<Vec<u8>>::from_base64(&b"not base64!!".to_vec()).unwrap_err();
    assert_eq!(err.status(), StatusCode::bad_request());
}

#[test]
fn base64_encodes_response_body() {
    let payload = Base64(b"abcdef".to_vec());
    assert_eq!(payload.to_base64_string(), "YWJjZGVm");
    let resp = payload.into_response();
    assert_eq!(resp.status(), StatusCode::from_u16(200).unwrap());
    assert_eq!(resp.body(), "YWJjZGVm");
    assert_eq!(
        resp.content_type().clone(),
        Some("text/plain; charset=utf-8".to_string())
    );
}

#[test]
fn base64_round_trip() {
    let bytes: Vec<u8> = (0u8..=255).collect();
    let encoded = Base64(bytes.clone()).to_base64_string();
    let decoded = Base64::<Vec<u8>>::from_base64(&encoded.into_bytes()).unwrap();
    assert_eq!(decoded.0, bytes);

    let empty = Base64(Vec::new()).to_base64_string();
    assert_eq!(empty, "");
    assert_eq!(Base64::<Vec<u8>>::from_base64(&Vec::new()).unwrap().0, Vec::<u8>::new());
}

#[test]
fn content_type_check_accepts_plain_text() {
    assert!(Base64::<Vec<u8>>::check_content_type("text/plain"));
    assert!(Base64::<Vec<u8>>::check_content_type("text/plain; charset=utf-8"));
    assert!(Base64::<Vec<u8>>::check_content_type("text/markdown+plain"));
    assert!(!Base64::<Vec<u8>>::check_content_type("application/json"));
    assert!(!Base64::<Vec<u8>>::check_content_type("image/svg+xml"));
    assert!(!Base64::<Vec<u8>>::check_content_type("text/html"));
    assert!(!Base64::<Vec<u8>>::check_content_type("not a content type"));
}
