use vstd::prelude::*;
use crate::credential::{gives_verdict, made_by_hash, verify_outcome, CredentialHasher};
use crate::error::{ApiError, ErrorKind};
use vstd::string::StringSliceAdditionalSpecFns;
use vstd::utf8::encode_utf8;

verus! {

/// A user row as the user store holds it, credential hash included.
pub struct RawUser {
    pub id: i64,
    pub username: String,
    pub password: String,
}

/// A user as handed to callers: without the credential hash.
pub struct User {
    pub id: i64,
    pub username: String,
}

/// The public view of a row: its id and name.
pub fn to_public_user(row: RawUser) -> (r: User)
    ensures
        r.id == row.id,
        r.username == row.username,
{
    User { id: row.id, username: row.username }
}

impl From<RawUser> for User {
    fn from(row: RawUser) -> (r: User) {
        to_public_user(row)
    }
}

impl vstd::std_specs::convert::FromSpecImpl<RawUser> for User {
    open spec fn obeys_from_spec() -> bool {
        true
    }

    open spec fn from_spec(row: RawUser) -> User {
        User { id: row.id, username: row.username }
    }
}

/// A sign-up request: the chosen name and password.
pub struct CreateUserRequest {
    pub username: String,
    pub password: String,
}

/// What the user store is to insert for a new user: its name and the hash of
/// its password.
pub struct NewUser {
    pub username: String,
    pub password_hash: String,
}

/// The credential side of the user store: it hashes passwords before they
/// are stored and checks passwords against stored rows.
pub struct UserController {
    hasher: CredentialHasher,
}

impl UserController {
    pub closed spec fn pepper(&self) -> Seq<u8> {
        self.hasher.pepper()
    }

    pub fn new(hasher: CredentialHasher) -> (r: Self)
        ensures
            r.pepper() == hasher.pepper(),
    {
        UserController { hasher }
    }

    /// The row to insert for a sign-up request: the name as given and a hash
    /// of the password.
    pub fn create_user(&self, req: CreateUserRequest) -> (r: Result<NewUser, ApiError>)
        ensures
            r matches Ok(n) ==> n.username == req.username && made_by_hash(
                self.pepper(),
                req.password@,
                n.password_hash@,
            ),
            encode_utf8(req.password@).len() <= u32::MAX ==> r is Ok,
            r matches Err(e) ==> e.kind == ErrorKind::Format && encode_utf8(req.password@).len()
                > u32::MAX,
    {
        let hash = self.hasher.hash(req.password.as_str())?;
        Ok(NewUser { username: req.username, password_hash: hash })
    }

    /// The hash to store as a user's new password.
    pub fn update_user_password(&self, password: &str) -> (r: Result<String, ApiError>)
        ensures
            r matches Ok(h) ==> made_by_hash(self.pepper(), password@, h@),
            password.spec_bytes().len() <= u32::MAX ==> r is Ok,
            r matches Err(e) ==> e.kind == ErrorKind::Format && password.spec_bytes().len()
                > u32::MAX,
    {
        self.hasher.hash(password)
    }

    /// The user of `row` if `password` matches its stored hash, nothing if it
    /// does not; a stored hash that cannot be checked is an error.
    pub fn validate_credentials(&self, row: RawUser, password: &str) -> (r: Result<
        Option<User>,
        ApiError,
    >)
        ensures
            match verify_outcome(self.pepper(), password@, row.password@) {
                Ok(true) => r matches Ok(Some(u)) && u.id == row.id && u.username
                    == row.username,
                Ok(false) => r matches Ok(None),
                Err(e) => r == Err::<Option<User>, ApiError>(e),
            },
            password.spec_bytes().len() <= u32::MAX && gives_verdict(row.password@) ==> r is Ok,
    {
        let valid = self.hasher.verify(password, row.password.as_str())?;
        if valid {
            Ok(Some(to_public_user(row)))
        } else {
            Ok(None)
        }
    }
}

} // verus!
