use grey::error::{ApiError, ErrorKind};
use grey::util::{base64_decode, base64_decode_string, base64_encode, random_string, random_string_with_prefix};

#[test]
fn random_string_has_length_and_alphabet() {
    let s = random_string(32);
    assert_eq!(s.len(), 32);
    assert!(s.chars().all(|c| c.is_ascii_alphanumeric()));
    assert_eq!(random_string(0), "");
    assert_ne!(random_string(32), random_string(32));
}

#[test]
fn prefixed_random_string() {
    let s = random_string_with_prefix(32, "session");
    assert_eq!(s.len(), 32);
    assert!(s.starts_with("session"));
    assert!(s[7..].chars().all(|c| c.is_ascii_alphanumeric()));
    assert_eq!(random_string_with_prefix(2, "sk"), "sk");
}

#[test]
fn base64_round_trip() {
    assert_eq!(base64_encode(b"hello"), "aGVsbG8=");
    assert_eq!(base64_encode(b""), "");
    assert_eq!(base64_decode(b"aGVsbG8=").ok(), Some(b"hello".to_vec()));
    assert_eq!(base64_decode_string("aGVsbG8=").ok(), Some("hello".to_string()));
}

#[test]
fn base64_errors_are_format_errors() {
    assert!(matches!(base64_decode(b"!!!"), Err(e) if e.kind == ErrorKind::Format));
    assert!(matches!(base64_decode_string("/w=="), Err(e) if e.kind == ErrorKind::Format));
}

#[test]
fn error_status_codes() {
    assert_eq!(ApiError::new(ErrorKind::Config).status_code(), 500);
    assert_eq!(ApiError::new(ErrorKind::Format).status_code(), 500);
    assert_eq!(ApiError::new(ErrorKind::Store).status_code(), 500);
    assert_eq!(ApiError::new(ErrorKind::BadRequest).status_code(), 400);
    assert_eq!(ApiError::new(ErrorKind::Unauthorized).status_code(), 401);
    assert_eq!(ApiError::from(ErrorKind::Forbidden).status_code(), 403);
    assert_eq!(ApiError::new(ErrorKind::Store).kind(), ErrorKind::Store);
}
