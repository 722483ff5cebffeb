use argon2::password_hash::{PasswordHash, PasswordHasher, PasswordVerifier, SaltString};
use vstd::prelude::*;
use vstd::string::StringSliceAdditionalSpecFns;
use crate::error::{ApiError, ErrorKind};

verus! {

/// The length in bytes that the pepper must have.
pub const PEPPER_LEN: usize = 48;

/// The length in bytes of the peppered form of a password.
pub const PEPPERED_LEN: usize = 32;

/// The Argon2 key derived from `password` with `pepper` as its salt
/// material, or nothing where Argon2 refuses the inputs.
pub uninterp spec fn peppered_of(pepper: Seq<u8>, password: Seq<char>) -> Option<Seq<u8>>;

/// What Argon2 says of `secret` against the PHC string `stored`: whether it
/// matches, or nothing where `stored` cannot be parsed or checked.
pub uninterp spec fn phc_verdict(secret: Seq<u8>, stored: Seq<char>) -> Option<bool>;

/// Relies on `Argon2::hash_password_into` with the default parameters: a
/// deterministic key derivation, with the pepper in the salt position, which
/// refuses only a password over `u32::MAX` bytes or a salt outside 8 to
/// `u32::MAX` bytes.
#[verifier::external_body]
fn derive_peppered(pepper: &[u8], password: &str) -> (r: Option<Vec<u8>>)
    ensures
        match peppered_of(pepper@, password@) {
            Some(v) => r matches Some(w) && w@ == v,
            None => r is None,
        },
        8 <= pepper@.len() <= u32::MAX && password.spec_bytes().len() <= u32::MAX ==> r is Some,
        r matches Some(w) ==> w@.len() == PEPPERED_LEN,
{
    let mut out = vec![0u8; PEPPERED_LEN];
    argon2::Argon2::default().hash_password_into(password.as_bytes(), pepper, &mut out).ok()?;
    Some(out)
}

/// Relies on `SaltString::generate` from `OsRng`, `Argon2::hash_password` and
/// the `Display` of `PasswordHash`: an Argon2id PHC string with a fresh
/// 16-byte salt and the default parameters. Hashing refuses only a secret
/// over `u32::MAX` bytes. Argon2's own verification accepts the string for
/// the secret it was made from, and answers match or mismatch for every
/// other secret that it would hash.
#[verifier::external_body]
fn hash_with_fresh_salt(secret: &[u8]) -> (r: Option<String>)
    ensures
        secret@.len() <= u32::MAX ==> r is Some,
        r matches Some(h) ==> phc_verdict(secret@, h@) == Some(true),
        r matches Some(h) ==> gives_verdict(h@),
        r matches Some(h) ==> is_argon2id_phc(h@),
{
    let salt = SaltString::generate(&mut rand::rngs::OsRng);
    let hash = argon2::Argon2::default().hash_password(secret, &salt).ok()?;
    Some(hash.to_string())
}

/// Relies on `PasswordHash::new` and `Argon2::verify_password`: a parse
/// failure or any error but a password mismatch gives no verdict.
#[verifier::external_body]
fn check_phc(secret: &[u8], stored: &str) -> (r: Option<bool>)
    ensures
        r == phc_verdict(secret@, stored@),
{
    let parsed = PasswordHash::new(stored).ok()?;
    match argon2::Argon2::default().verify_password(secret, &parsed) {
        Ok(()) => Some(true),
        Err(argon2::password_hash::Error::Password) => Some(false),
        Err(_) => None,
    }
}

/// The opening of an Argon2id PHC string of version 19: `$argon2id$v=19$`.
pub open spec fn argon2id_phc_prefix() -> Seq<char> {
    seq!['$', 'a', 'r', 'g', 'o', 'n', '2', 'i', 'd', '$', 'v', '=', '1', '9', '$']
}

/// `h` is a self-describing Argon2id hash string: the algorithm and version
/// come first, the parameters, salt and digest follow.
pub open spec fn is_argon2id_phc(h: Seq<char>) -> bool {
    h.len() > argon2id_phc_prefix().len() && h.subrange(0, argon2id_phc_prefix().len() as int)
        == argon2id_phc_prefix()
}

/// Argon2 gives a verdict, match or mismatch, on `stored` for every secret
/// it would hash.
pub open spec fn gives_verdict(stored: Seq<char>) -> bool {
    forall|secret: Seq<u8>| secret.len() <= u32::MAX ==> (#[trigger] phc_verdict(secret, stored)) is Some
}

/// What `hash` promises of a string it made from `password` under `pepper`:
/// it verifies `password`, gives a verdict on every other password, and is
/// a self-describing Argon2id string.
pub open spec fn made_by_hash(pepper: Seq<u8>, password: Seq<char>, stored: Seq<char>) -> bool {
    &&& hashes_to(pepper, password, stored)
    &&& gives_verdict(stored)
    &&& is_argon2id_phc(stored)
}

/// `stored` is a hash of `password` under `pepper`: the peppered password
/// exists and the stored string accepts it.
pub open spec fn hashes_to(pepper: Seq<u8>, password: Seq<char>, stored: Seq<char>) -> bool {
    match peppered_of(pepper, password) {
        Some(secret) => phc_verdict(secret, stored) == Some(true),
        None => false,
    }
}

/// What verifying `password` against `stored` under `pepper` returns.
pub open spec fn verify_outcome(pepper: Seq<u8>, password: Seq<char>, stored: Seq<char>) -> Result<
    bool,
    ApiError,
> {
    match peppered_of(pepper, password) {
        Some(secret) => match phc_verdict(secret, stored) {
            Some(b) => Ok(b),
            None => Err(ApiError { kind: ErrorKind::Format }),
        },
        None => Err(ApiError { kind: ErrorKind::Format }),
    }
}

/// Hashes and verifies passwords with a process-wide pepper, given once at
/// construction.
pub struct CredentialHasher {
    pepper: Vec<u8>,
}

impl CredentialHasher {
    #[verifier::type_invariant]
    spec fn pepper_has_length(&self) -> bool {
        self.pepper@.len() == PEPPER_LEN
    }

    /// The pepper this hasher mixes into every password.
    pub closed spec fn pepper(&self) -> Seq<u8> {
        self.pepper@
    }

    /// A hasher with `pepper`; a pepper of any other length than
    /// `PEPPER_LEN` is a configuration error.
    pub fn new(pepper: Vec<u8>) -> (r: Result<Self, ApiError>)
        ensures
            pepper@.len() == PEPPER_LEN ==> (r matches Ok(h) && h.pepper() == pepper@),
            pepper@.len() != PEPPER_LEN ==> r == Err::<Self, ApiError>(
                ApiError { kind: ErrorKind::Config },
            ),
    {
        if pepper.len() == PEPPER_LEN {
            Ok(CredentialHasher { pepper })
        } else {
            Err(ApiError::new(ErrorKind::Config))
        }
    }

    /// A storable, self-describing hash of `password`: the peppered password
    /// hashed again with a fresh salt.
    pub fn hash(&self, password: &str) -> (r: Result<String, ApiError>)
        ensures
            r matches Ok(h) ==> made_by_hash(self.pepper(), password@, h@),
            password.spec_bytes().len() <= u32::MAX ==> r is Ok,
            password.spec_bytes().len() <= u32::MAX ==> peppered_of(self.pepper(), password@) is Some,
            peppered_of(self.pepper(), password@) is None ==> r == Err::<String, ApiError>(
                ApiError { kind: ErrorKind::Format },
            ),
            r matches Err(e) ==> e.kind == ErrorKind::Format && peppered_of(
                self.pepper(),
                password@,
            ) is None,
    {
        proof {
            use_type_invariant(self);
        }
        let secret = match derive_peppered(self.pepper.as_slice(), password) {
            Some(s) => s,
            None => return Err(ApiError::new(ErrorKind::Format)),
        };
        match hash_with_fresh_salt(secret.as_slice()) {
            Some(h) => Ok(h),
            None => Err(ApiError::new(ErrorKind::Format)),
        }
    }

    /// Whether `password` matches `stored`; a stored string that cannot be
    /// parsed or checked is a format error, never a mismatch.
    pub fn verify(&self, password: &str, stored: &str) -> (r: Result<bool, ApiError>)
        ensures
            r == verify_outcome(self.pepper(), password@, stored@),
            password.spec_bytes().len() <= u32::MAX ==> peppered_of(self.pepper(), password@) is Some,
            password.spec_bytes().len() <= u32::MAX && gives_verdict(stored@) ==> r is Ok,
    {
        proof {
            use_type_invariant(self);
        }
        let secret = match derive_peppered(self.pepper.as_slice(), password) {
            Some(s) => s,
            None => return Err(ApiError::new(ErrorKind::Format)),
        };
        match check_phc(secret.as_slice(), stored) {
            Some(b) => Ok(b),
            None => Err(ApiError::new(ErrorKind::Format)),
        }
    }
}

/// A password verifies against every hash made of it: whatever salt `hash`
/// drew, `verify` with the same pepper and password returns `Ok(true)`.
pub proof fn lemma_verify_accepts_own_hash(pepper: Seq<u8>, password: Seq<char>, stored: Seq<char>)
    requires
        made_by_hash(pepper, password, stored),
    ensures
        verify_outcome(pepper, password, stored) == Ok::<bool, ApiError>(true),
{
}

/// Where Argon2 finds that the peppered form of `other` does not match a hash
/// made of `password` (what a collision-resistant hash gives for
/// `other != password`), `verify` answers a plain mismatch, never an error.
pub proof fn lemma_verify_rejects_other_password(
    pepper: Seq<u8>,
    password: Seq<char>,
    other: Seq<char>,
    stored: Seq<char>,
)
    requires
        made_by_hash(pepper, password, stored),
        peppered_of(pepper, other) matches Some(secret) && phc_verdict(secret, stored) == Some(
            false,
        ),
    ensures
        verify_outcome(pepper, other, stored) == Ok::<bool, ApiError>(false),
{
}

} // verus!
