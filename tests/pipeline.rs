use grey::error::ErrorKind;
use grey::pipeline::{
    authorize, extract_presentation, keys_match, parse_bearer, require_anonymous, require_authenticated,
    AuthSession, Presentation,
};
use grey::session::{classify_stored, Session, SessionLookup, StoredSession};

fn live(expires_at: i64) -> SessionLookup {
    SessionLookup::Live(Session {
        user_id: 42,
        session_id: "sessionAAAA".to_string(),
        session_key: "skBBBB".to_string(),
        expires_at,
    })
}

fn bearer(id: &str, key: &str) -> Presentation {
    extract_presentation(
        Some(format!("Bearer {}", id).into_bytes()),
        Some(key.as_bytes().to_vec()),
        None,
    )
    .ok()
    .unwrap()
}

#[test]
fn no_credentials_proceed_anonymous() {
    let p = extract_presentation(None, None, None).ok().unwrap();
    assert!(matches!(p, Presentation::Anonymous));
    assert!(p.session_id().is_none());
    let ctx = authorize(p, SessionLookup::Absent, 1_000).ok().unwrap();
    assert!(ctx.is_none());
    assert!(require_anonymous(&ctx).is_ok());
    let r = require_authenticated(ctx);
    assert!(matches!(r, Err(e) if e.status_code() == 401));
}

#[test]
fn valid_bearer_pair_authenticates() {
    let p = bearer("sessionAAAA", "skBBBB");
    assert_eq!(p.session_id(), Some("sessionAAAA"));
    let ctx = authorize(p, live(2_000), 1_000).ok().unwrap();
    let AuthSession(s) = require_authenticated(ctx).ok().unwrap();
    assert_eq!(s.user_id, 42);
    assert_eq!(s.session_id, "sessionAAAA");
}

#[test]
fn wrong_key_is_unauthorized() {
    let p = bearer("sessionAAAA", "skBBBC");
    let r = authorize(p, live(2_000), 1_000);
    assert!(matches!(r, Err(e) if e.kind == ErrorKind::Unauthorized && e.status_code() == 401));
    let p = bearer("sessionAAAA", "skBBB");
    assert!(matches!(authorize(p, live(2_000), 1_000), Err(e) if e.status_code() == 401));
}

#[test]
fn missing_prefix_is_bad_request() {
    let r = extract_presentation(Some(b"sessionAAAA".to_vec()), Some(b"skBBBB".to_vec()), None);
    assert!(matches!(r, Err(e) if e.kind == ErrorKind::BadRequest && e.status_code() == 400));
    let r = extract_presentation(Some(b"bearer sessionAAAA".to_vec()), Some(b"skBBBB".to_vec()), None);
    assert!(matches!(r, Err(e) if e.status_code() == 400));
}

#[test]
fn invalid_text_id_is_bad_request() {
    let r = extract_presentation(Some(vec![66, 101, 97, 114, 101, 114, 32, 0xff]), Some(b"k".to_vec()), None);
    assert!(matches!(r, Err(e) if e.status_code() == 400));
}

#[test]
fn missing_key_header_is_bad_request() {
    let r = extract_presentation(Some(b"Bearer sessionAAAA".to_vec()), None, None);
    assert!(matches!(r, Err(e) if e.status_code() == 400));
}

#[test]
fn expired_session_is_unauthorized_and_removed() {
    let expired = Session {
        user_id: 42,
        session_id: "sessionAAAA".to_string(),
        session_key: "skBBBB".to_string(),
        expires_at: 500,
    };
    let lookup = classify_stored("sessionAAAA", StoredSession::Found(expired), 1_000);
    assert!(lookup.needs_cleanup());
    let p = bearer("sessionAAAA", "skBBBB");
    let r = authorize(p, lookup, 1_000);
    assert!(matches!(r, Err(e) if e.status_code() == 401));
}

#[test]
fn unknown_session_is_unauthorized() {
    let p = bearer("sessionZZZZ", "skBBBB");
    assert!(matches!(authorize(p, SessionLookup::Absent, 1_000), Err(e) if e.status_code() == 401));
}

#[test]
fn clock_recheck_rejects_stale_live_record() {
    let p = bearer("sessionAAAA", "skBBBB");
    assert!(matches!(authorize(p, live(1_000), 1_000), Err(e) if e.status_code() == 401));
}

#[test]
fn cookie_alone_authenticates_without_key() {
    let p = extract_presentation(None, None, Some("sessionAAAA".to_string())).ok().unwrap();
    assert!(matches!(p, Presentation::Cookie { .. }));
    let ctx = authorize(p, live(2_000), 1_000).ok().unwrap();
    assert_eq!(ctx.map(|a| a.0.user_id), Some(42));
}

#[test]
fn header_wins_over_cookie() {
    let p = extract_presentation(
        Some(b"Bearer sessionAAAA".to_vec()),
        Some(b"skBBBB".to_vec()),
        Some("sessionOTHER".to_string()),
    )
    .ok()
    .unwrap();
    assert!(matches!(p, Presentation::Bearer { .. }));
    assert_eq!(p.session_id(), Some("sessionAAAA"));
}

#[test]
fn authenticated_caller_is_forbidden_from_anonymous_handler() {
    let ctx = authorize(bearer("sessionAAAA", "skBBBB"), live(2_000), 1_000).ok().unwrap();
    let r = require_anonymous(&ctx);
    assert!(matches!(r, Err(e) if e.kind == ErrorKind::Forbidden && e.status_code() == 403));
}

#[test]
fn bearer_header_parsing() {
    assert_eq!(parse_bearer(b"Bearer abc"), Some("abc".to_string()));
    assert_eq!(parse_bearer(b"Bearer "), Some(String::new()));
    assert_eq!(parse_bearer(b"Bearer"), None);
    assert_eq!(parse_bearer(b"Basic abc"), None);
}

#[test]
fn key_comparison() {
    assert!(keys_match(b"", b""));
    assert!(keys_match(b"abc", b"abc"));
    assert!(!keys_match(b"abc", b"abd"));
    assert!(!keys_match(b"abc", b"ab"));
}
