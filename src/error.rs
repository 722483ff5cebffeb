use vstd::prelude::*;

verus! {

/// The classes of failure this subsystem reports.
#[derive(Clone, Copy, Debug, PartialEq, Eq, Structural)]
pub enum ErrorKind {
    /// The pepper is missing or has the wrong length.
    Config,
    /// A stored hash, an encoded value or a session payload cannot be parsed.
    Format,
    /// The backing store failed.
    Store,
    /// The credential presentation of a request is malformed.
    BadRequest,
    /// No valid session accompanies a request that needs one.
    Unauthorized,
    /// An authenticated caller reached a handler reserved for anonymous ones.
    Forbidden,
}

/// The HTTP status that each class of failure is answered with.
pub open spec fn status_of(kind: ErrorKind) -> u16 {
    match kind {
        ErrorKind::BadRequest => 400,
        ErrorKind::Unauthorized => 401,
        ErrorKind::Forbidden => 403,
        _ => 500,
    }
}

/// An error as handed to the HTTP layer: it carries only its class, never
/// internal details.
#[derive(Clone, Copy, Debug, PartialEq, Eq, Structural)]
pub struct ApiError {
    pub kind: ErrorKind,
}

impl ApiError {
    pub fn new(kind: ErrorKind) -> (r: Self)
        ensures
            r.kind == kind,
    {
        ApiError { kind }
    }

    pub fn kind(&self) -> (r: ErrorKind)
        ensures
            r == self.kind,
    {
        self.kind
    }

    pub fn status_code(&self) -> (r: u16)
        ensures
            r == status_of(self.kind),
    {
        match self.kind {
            ErrorKind::BadRequest => 400,
            ErrorKind::Unauthorized => 401,
            ErrorKind::Forbidden => 403,
            _ => 500,
        }
    }
}

impl From<ErrorKind> for ApiError {
    fn from(kind: ErrorKind) -> (r: ApiError) {
        ApiError::new(kind)
    }
}

impl vstd::std_specs::convert::FromSpecImpl<ErrorKind> for ApiError {
    open spec fn obeys_from_spec() -> bool {
        true
    }

    open spec fn from_spec(kind: ErrorKind) -> ApiError {
        ApiError { kind }
    }
}

} // verus!
