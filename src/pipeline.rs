use vstd::prelude::*;
use vstd::utf8::{decode_utf8, encode_utf8, valid_utf8};
use crate::error::{ApiError, ErrorKind};
use crate::session::{clock_now_ms, is_live, CLOCK_LIMIT_MS, Session, SessionLookup};
use crate::util::string_from_utf8;

verus! {

/// The request context's proof of identity: the session it resolved to.
pub struct AuthSession(pub Session);

/// How a request presents its session, if it presents one.
pub enum Presentation {
    /// No session header and no session cookie.
    Anonymous,
    /// The header pair: an id and, in the clear, the session key.
    Bearer { session_id: String, session_key: Vec<u8> },
    /// The cookie, which carries the id alone.
    Cookie { session_id: String },
}

impl Presentation {
    /// The session id to look up, where one is presented.
    pub fn session_id(&self) -> (r: Option<&str>)
        ensures
            match *self {
                Presentation::Anonymous => r is None,
                Presentation::Bearer { session_id, .. } => r matches Some(s) && s@
                    == session_id@,
                Presentation::Cookie { session_id } => r matches Some(s) && s@ == session_id@,
            },
    {
        match self {
            Presentation::Anonymous => None,
            Presentation::Bearer { session_id, .. } => Some(session_id.as_str()),
            Presentation::Cookie { session_id } => Some(session_id.as_str()),
        }
    }
}

/// The bytes of `"Bearer "`, which must open the id header.
pub open spec fn bearer_prefix() -> Seq<u8> {
    seq![66u8, 101u8, 97u8, 114u8, 101u8, 114u8, 32u8]
}

/// The session id that an id header carries: the text after the prefix, if
/// the header has the prefix and the rest is valid UTF-8.
pub open spec fn bearer_id(h: Seq<u8>) -> Option<Seq<char>> {
    if h.len() >= 7 && h.subrange(0, 7) == bearer_prefix() && valid_utf8(h.subrange(7, h.len() as int)) {
        Some(decode_utf8(h.subrange(7, h.len() as int)))
    } else {
        None
    }
}

/// The session id in an id header, or nothing where the header is malformed.
pub fn parse_bearer(header: &[u8]) -> (r: Option<String>)
    ensures
        match bearer_id(header@) {
            Some(id) => r matches Some(s) && s@ == id,
            None => r is None,
        },
{
    let prefix: [u8; 7] = [66u8, 101u8, 97u8, 114u8, 101u8, 114u8, 32u8];
    assert(prefix@ =~= bearer_prefix());
    if header.len() < 7 {
        return None;
    }
    let mut i: usize = 0;
    while i < 7
        invariant
            i <= 7,
            header@.len() >= 7,
            prefix@ == bearer_prefix(),
            forall|j: int| 0 <= j < i ==> header@[j] == prefix@[j],
        decreases 7 - i,
    {
        if header[i] != prefix[i] {
            assert(header@.subrange(0, 7)[i as int] != bearer_prefix()[i as int]);
            return None;
        }
        i = i + 1;
    }
    assert(header@.subrange(0, 7) =~= bearer_prefix());
    let mut rest: Vec<u8> = Vec::new();
    let mut k: usize = 7;
    while k < header.len()
        invariant
            7 <= k <= header@.len(),
            rest@ =~= header@.subrange(7, k as int),
        decreases header@.len() - k,
    {
        rest.push(header[k]);
        k = k + 1;
    }
    assert(rest@ =~= header@.subrange(7, header@.len() as int));
    string_from_utf8(rest)
}

/// What the headers and the cookie of a request present. The id header wins
/// over the cookie; an id header that is malformed, or that comes without a
/// key header, is a bad request.
pub open spec fn presentation_ok(
    id_header: Option<Seq<u8>>,
    key_header: Option<Seq<u8>>,
    cookie: Option<Seq<char>>,
    r: Result<Presentation, ApiError>,
) -> bool {
    match id_header {
        Some(h) => match (bearer_id(h), key_header) {
            (Some(id), Some(k)) => r matches Ok(Presentation::Bearer { session_id, session_key })
                && session_id@ == id && session_key@ == k,
            _ => r == Err::<Presentation, ApiError>(ApiError { kind: ErrorKind::BadRequest }),
        },
        None => match cookie {
            Some(c) => r matches Ok(Presentation::Cookie { session_id }) && session_id@ == c,
            None => r matches Ok(Presentation::Anonymous),
        },
    }
}

/// Reads the session reference of a request from its id header, key header
/// and session cookie.
pub fn extract_presentation(
    id_header: Option<Vec<u8>>,
    key_header: Option<Vec<u8>>,
    cookie: Option<String>,
) -> (r: Result<Presentation, ApiError>)
    ensures
        presentation_ok(
            match id_header {
                Some(h) => Some(h@),
                None => None,
            },
            match key_header {
                Some(k) => Some(k@),
                None => None,
            },
            match cookie {
                Some(c) => Some(c@),
                None => None,
            },
            r,
        ),
{
    match id_header {
        Some(h) => {
            let id = match parse_bearer(h.as_slice()) {
                Some(id) => id,
                None => return Err(ApiError::new(ErrorKind::BadRequest)),
            };
            match key_header {
                Some(k) => Ok(Presentation::Bearer { session_id: id, session_key: k }),
                None => Err(ApiError::new(ErrorKind::BadRequest)),
            }
        },
        None => match cookie {
            Some(c) => Ok(Presentation::Cookie { session_id: c }),
            None => Ok(Presentation::Anonymous),
        },
    }
}

/// Whether two byte strings are equal. Once the lengths agree, every byte is
/// compared, whatever came before, so that the time taken does not depend on
/// where the strings differ.
pub fn keys_match(a: &[u8], b: &[u8]) -> (r: bool)
    ensures
        r == (a@ == b@),
{
    if a.len() != b.len() {
        return false;
    }
    let mut acc: u8 = 0;
    let mut i: usize = 0;
    while i < a.len()
        invariant
            a@.len() == b@.len(),
            i <= a@.len(),
            (acc == 0) <==> forall|j: int| 0 <= j < i ==> a@[j] == b@[j],
        decreases a@.len() - i,
    {
        let x = a[i];
        let y = b[i];
        let next = acc | (x ^ y);
        assert((next == 0) <==> (acc == 0 && x == y)) by (bit_vector)
            requires
                next == acc | (x ^ y),
        ;
        acc = next;
        i = i + 1;
    }
    if acc == 0 {
        assert(a@ =~= b@);
    }
    acc == 0
}

/// The outcome of the pipeline for a request that presented `p`, whose
/// lookup answered `lookup`, at `now`.
pub open spec fn authorize_outcome(p: Presentation, lookup: SessionLookup, now: int) -> Result<
    Option<AuthSession>,
    ApiError,
> {
    match p {
        Presentation::Anonymous => Ok(None),
        Presentation::Cookie { .. } => match lookup {
            SessionLookup::Live(s) => if is_live(s, now) {
                Ok(Some(AuthSession(s)))
            } else {
                Err(ApiError { kind: ErrorKind::Unauthorized })
            },
            _ => Err(ApiError { kind: ErrorKind::Unauthorized }),
        },
        Presentation::Bearer { session_key, .. } => match lookup {
            SessionLookup::Live(s) => if is_live(s, now) && session_key@ == encode_utf8(
                s.session_key@,
            ) {
                Ok(Some(AuthSession(s)))
            } else {
                Err(ApiError { kind: ErrorKind::Unauthorized })
            },
            _ => Err(ApiError { kind: ErrorKind::Unauthorized }),
        },
    }
}

/// Decides a request: anonymous where nothing was presented; otherwise the
/// live session, checked against the presented key in the header form and
/// against the clock `now_ms` once more.
pub fn authorize(p: Presentation, lookup: SessionLookup, now_ms: i64) -> (r: Result<
    Option<AuthSession>,
    ApiError,
>)
    ensures
        r == authorize_outcome(p, lookup, now_ms as int),
{
    match p {
        Presentation::Anonymous => Ok(None),
        Presentation::Cookie { .. } => match lookup {
            SessionLookup::Live(s) => {
                if now_ms < s.expires_at {
                    Ok(Some(AuthSession(s)))
                } else {
                    Err(ApiError::new(ErrorKind::Unauthorized))
                }
            },
            _ => Err(ApiError::new(ErrorKind::Unauthorized)),
        },
        Presentation::Bearer { session_key, .. } => match lookup {
            SessionLookup::Live(s) => {
                let same = keys_match(session_key.as_slice(), s.session_key.as_str().as_bytes());
                if now_ms < s.expires_at && same {
                    Ok(Some(AuthSession(s)))
                } else {
                    Err(ApiError::new(ErrorKind::Unauthorized))
                }
            },
            _ => Err(ApiError::new(ErrorKind::Unauthorized)),
        },
    }
}

/// `authorize` at the present time.
pub fn authenticate(p: Presentation, lookup: SessionLookup) -> (r: Result<
    Option<AuthSession>,
    ApiError,
>)
    ensures
        exists|now: int| 0 <= now < CLOCK_LIMIT_MS && r == authorize_outcome(p, lookup, now),
{
    let now_ms = clock_now_ms();
    authorize(p, lookup, now_ms)
}

/// The session of an authenticated caller; an anonymous one is unauthorized.
pub fn require_authenticated(ctx: Option<AuthSession>) -> (r: Result<AuthSession, ApiError>)
    ensures
        match ctx {
            Some(a) => r == Ok::<AuthSession, ApiError>(a),
            None => r == Err::<AuthSession, ApiError>(ApiError { kind: ErrorKind::Unauthorized }),
        },
{
    match ctx {
        Some(a) => Ok(a),
        None => Err(ApiError::new(ErrorKind::Unauthorized)),
    }
}

/// Admits anonymous callers only; an authenticated one is forbidden.
pub fn require_anonymous(ctx: &Option<AuthSession>) -> (r: Result<(), ApiError>)
    ensures
        ctx is None ==> r == Ok::<(), ApiError>(()),
        ctx is Some ==> r == Err::<(), ApiError>(ApiError { kind: ErrorKind::Forbidden }),
{
    match ctx {
        Some(_) => Err(ApiError::new(ErrorKind::Forbidden)),
        None => Ok(()),
    }
}

} // verus!
