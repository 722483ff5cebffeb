use grey::credential::{CredentialHasher, PEPPER_LEN};
use grey::error::ErrorKind;
use grey::user::{CreateUserRequest, RawUser, User, UserController};

fn pepper() -> Vec<u8> {
    "abcdef".repeat(8).into_bytes()
}

fn hasher() -> CredentialHasher {
    CredentialHasher::new(pepper()).ok().unwrap()
}

#[test]
fn pepper_of_wrong_length_is_config_error() {
    assert_eq!(pepper().len(), PEPPER_LEN);
    let short = CredentialHasher::new(vec![1u8; 47]);
    assert!(matches!(short, Err(e) if e.kind == ErrorKind::Config));
    let long = CredentialHasher::new(vec![1u8; 49]);
    assert!(matches!(long, Err(e) if e.kind == ErrorKind::Config));
    assert!(CredentialHasher::new(Vec::new()).is_err());
}

#[test]
fn hash_is_self_describing_and_verifies() {
    let h = hasher();
    let stored = h.hash("Sup3rSecret!").ok().unwrap();
    assert!(stored.starts_with("$argon2id$v=19$"));
    assert!(!stored.contains("Sup3rSecret!"));
    assert_eq!(h.verify("Sup3rSecret!", &stored).ok(), Some(true));
}

#[test]
fn wrong_password_does_not_verify() {
    let h = hasher();
    let stored = h.hash("Sup3rSecret!").ok().unwrap();
    assert_eq!(h.verify("wrong", &stored).ok(), Some(false));
}

#[test]
fn two_hashes_differ_and_both_verify() {
    let h = hasher();
    let a = h.hash("Sup3rSecret!").ok().unwrap();
    let b = h.hash("Sup3rSecret!").ok().unwrap();
    assert_ne!(a, b);
    assert_eq!(h.verify("Sup3rSecret!", &a).ok(), Some(true));
    assert_eq!(h.verify("Sup3rSecret!", &b).ok(), Some(true));
}

#[test]
fn other_pepper_does_not_verify() {
    let stored = hasher().hash("Sup3rSecret!").ok().unwrap();
    let other = CredentialHasher::new(vec![7u8; PEPPER_LEN]).ok().unwrap();
    assert_eq!(other.verify("Sup3rSecret!", &stored).ok(), Some(false));
}

#[test]
fn empty_password_round_trips() {
    let h = hasher();
    let stored = h.hash("").ok().unwrap();
    assert_eq!(h.verify("", &stored).ok(), Some(true));
}

#[test]
fn corrupt_stored_hash_is_format_error() {
    let h = hasher();
    let r = h.verify("Sup3rSecret!", "not a hash");
    assert!(matches!(r, Err(e) if e.kind == ErrorKind::Format));
    let r = h.verify("Sup3rSecret!", "");
    assert!(matches!(r, Err(e) if e.kind == ErrorKind::Format));
}

#[test]
fn user_controller_creates_and_validates() {
    let c = UserController::new(hasher());
    let req = CreateUserRequest { username: "alice".to_string(), password: "pw1".to_string() };
    let row = c.create_user(req).ok().unwrap();
    assert_eq!(row.username, "alice");
    assert!(row.password_hash.starts_with("$argon2id$v=19$"));
    assert_ne!(row.password_hash, "pw1");
    let raw = RawUser { id: 9, username: row.username.clone(), password: row.password_hash.clone() };
    let user = c.validate_credentials(raw, "pw1").ok().unwrap().unwrap();
    assert_eq!(user.id, 9);
    assert_eq!(user.username, "alice");
    let raw = RawUser { id: 9, username: row.username, password: row.password_hash };
    assert!(c.validate_credentials(raw, "pw2").ok().unwrap().is_none());
}

#[test]
fn password_update_yields_verifiable_hash() {
    let c = UserController::new(hasher());
    let stored = c.update_user_password("n3w").ok().unwrap();
    assert_eq!(hasher().verify("n3w", &stored).ok(), Some(true));
}

#[test]
fn validate_with_corrupt_row_is_error() {
    let c = UserController::new(hasher());
    let raw = RawUser { id: 1, username: "bob".to_string(), password: "garbage".to_string() };
    let r = c.validate_credentials(raw, "x");
    assert!(matches!(r, Err(e) if e.kind == ErrorKind::Format));
}

#[test]
fn raw_user_converts_to_public_user() {
    let raw = RawUser { id: 3, username: "carol".to_string(), password: "h".to_string() };
    let u: User = User::from(raw);
    assert_eq!(u.id, 3);
    assert_eq!(u.username, "carol");
}
