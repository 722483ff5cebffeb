use vstd::prelude::*;
use vstd::string::{is_ascii, is_ascii_spec_bytes, StrSliceExecFns, StringExecFns};
use vstd::utf8::encode_utf8_decode_utf8;
use crate::pipeline::keys_match;
use crate::util::{all_alphanumeric, random_string_with_prefix};

verus! {

/// How long a session lives after it is created: 24 hours, in milliseconds.
pub const SESSION_TTL_MS: i64 = 86_400_000;

/// The length in bytes of a session id and of a session key: with the
/// prefixes, at least 33 random letters and digits, over 192 bits each.
pub const SESSION_TOKEN_LEN: usize = 40;

/// An upper bound on the wall-clock readings, in milliseconds since the Unix
/// epoch, that the clock can hand out.
pub const CLOCK_LIMIT_MS: i64 = 10_000_000_000_000_000;

/// One authenticated context: a public id, a second secret, the user it
/// belongs to and the instant (milliseconds since the Unix epoch) it ends.
#[derive(Debug)]
pub struct Session {
    pub user_id: i64,
    pub session_id: String,
    pub session_key: String,
    pub expires_at: i64,
}

impl Session {
    pub fn user_id(&self) -> (r: i64)
        ensures
            r == self.user_id,
    {
        self.user_id
    }

    pub fn session_id(&self) -> (r: &str)
        ensures
            r@ == self.session_id@,
    {
        self.session_id.as_str()
    }

    pub fn session_key(&self) -> (r: &str)
        ensures
            r@ == self.session_key@,
    {
        self.session_key.as_str()
    }

    pub fn expires_at(&self) -> (r: i64)
        ensures
            r == self.expires_at,
    {
        self.expires_at
    }
}

/// A session is live at `now` while its expiry lies in the future.
pub open spec fn is_live(s: Session, now: int) -> bool {
    now < s.expires_at
}

/// The key under which the session with id `id` is stored.
pub open spec fn store_key(id: Seq<char>) -> Seq<char> {
    seq!['s', 'e', 's', 's', 'i', 'o', 'n', ':'] + id
}

/// What reading a session's key from the store gave, once decoded.
pub enum StoredSession {
    /// No value under the key.
    Missing,
    /// A value that is no well-formed session record.
    Corrupt,
    /// A well-formed session record.
    Found(Session),
}

/// What a session lookup answers.
pub enum SessionLookup {
    /// No session: nothing was stored.
    Absent,
    /// No session: the stored record was corrupt.
    Corrupt,
    /// No session: the stored record had expired, and its key is to be deleted.
    Expired,
    /// The live session.
    Live(Session),
}

impl SessionLookup {
    /// Whether the stale key must be deleted from the store.
    pub fn needs_cleanup(&self) -> (r: bool)
        ensures
            r == (*self is Expired),
    {
        matches!(self, SessionLookup::Expired)
    }

    /// The session, where one is live.
    pub fn into_session(self) -> (r: Option<Session>)
        ensures
            match self {
                SessionLookup::Live(s) => r == Some(s),
                _ => r is None,
            },
    {
        match self {
            SessionLookup::Live(s) => Some(s),
            _ => None,
        }
    }
}

/// What a lookup of session `id` answers, given what the store held under its
/// key and the time. A record that carries another id is corrupt.
pub open spec fn lookup_of(id: Seq<char>, stored: StoredSession, now: int) -> SessionLookup {
    match stored {
        StoredSession::Missing => SessionLookup::Absent,
        StoredSession::Corrupt => SessionLookup::Corrupt,
        StoredSession::Found(s) => if s.session_id@ != id {
            SessionLookup::Corrupt
        } else if is_live(s, now) {
            SessionLookup::Live(s)
        } else {
            SessionLookup::Expired
        },
    }
}

/// Relies on chrono's `Utc::now` and `timestamp_millis`: the wall clock, in
/// milliseconds since the Unix epoch, which `Utc::now` never reads before the
/// epoch and which lies within chrono's range of dates.
#[verifier::external_body]
pub(crate) fn clock_now_ms() -> (r: i64)
    ensures
        0 <= r < CLOCK_LIMIT_MS,
{
    chrono::Utc::now().timestamp_millis()
}

/// The session record for `user_id`, with the given id and key, created at
/// `now_ms`.
pub fn new_session(user_id: i64, session_id: String, session_key: String, now_ms: i64) -> (r:
    Session)
    requires
        now_ms <= i64::MAX - SESSION_TTL_MS,
    ensures
        r.user_id == user_id,
        r.session_id == session_id,
        r.session_key == session_key,
        r.expires_at == now_ms + SESSION_TTL_MS,
{
    Session { user_id, session_id, session_key, expires_at: now_ms + SESSION_TTL_MS }
}

/// The answer to a lookup of `session_id`, given what the store held under
/// its key and the time `now_ms`.
pub fn classify_stored(session_id: &str, stored: StoredSession, now_ms: i64) -> (r: SessionLookup)
    ensures
        r == lookup_of(session_id@, stored, now_ms as int),
{
    match stored {
        StoredSession::Missing => SessionLookup::Absent,
        StoredSession::Corrupt => SessionLookup::Corrupt,
        StoredSession::Found(s) => {
            let same = keys_match(s.session_id.as_str().as_bytes(), session_id.as_bytes());
            proof {
                encode_utf8_decode_utf8(s.session_id@);
                encode_utf8_decode_utf8(session_id@);
            }
            if !same {
                SessionLookup::Corrupt
            } else if now_ms < s.expires_at {
                SessionLookup::Live(s)
            } else {
                SessionLookup::Expired
            }
        },
    }
}

/// The key under which the session with id `session_id` is stored.
pub fn storage_key(session_id: &str) -> (r: String)
    ensures
        r@ == store_key(session_id@),
{
    let mut r = String::from_str("session:");
    proof {
        reveal_strlit("session:");
    }
    r.append(session_id);
    assert(r@ =~= store_key(session_id@));
    r
}

/// Issues, reads and removes sessions. The store itself is driven by the
/// caller: this type decides what is written, read and deleted.
pub struct SessionController {}

/// A random token of `SESSION_TOKEN_LEN` bytes that starts with `prefix`.
pub open spec fn is_token(t: Seq<char>, prefix: Seq<char>) -> bool {
    &&& t.len() == SESSION_TOKEN_LEN
    &&& t.subrange(0, prefix.len() as int) == prefix
    &&& all_alphanumeric(t.subrange(prefix.len() as int, t.len() as int))
}

impl SessionController {
    /// The name of the cookie that carries a session id.
    pub const SESSION_COOKIE_NAME: &'static str = "Session-Id";

    pub fn new() -> (r: Self) {
        SessionController {  }
    }

    /// A fresh session for `user_id`: a random id and an independent random
    /// key, expiring 24 hours from now.
    pub fn create_session(&self, user_id: i64) -> (r: Session)
        ensures
            r.user_id == user_id,
            is_token(r.session_id@, seq!['s', 'e', 's', 's', 'i', 'o', 'n']),
            is_token(r.session_key@, seq!['s', 'k']),
            SESSION_TTL_MS <= r.expires_at < CLOCK_LIMIT_MS + SESSION_TTL_MS,
    {
        let id_prefix: &str = "session";
        let key_prefix: &str = "sk";
        proof {
            reveal_strlit("session");
            reveal_strlit("sk");
            assert(is_ascii(id_prefix));
            assert(is_ascii(key_prefix));
            is_ascii_spec_bytes(id_prefix);
            is_ascii_spec_bytes(key_prefix);
            assert(id_prefix@ =~= seq!['s', 'e', 's', 's', 'i', 'o', 'n']);
            assert(key_prefix@ =~= seq!['s', 'k']);
        }
        let session_id = random_string_with_prefix(SESSION_TOKEN_LEN, id_prefix);
        let session_key = random_string_with_prefix(SESSION_TOKEN_LEN, key_prefix);
        let now_ms = clock_now_ms();
        new_session(user_id, session_id, session_key, now_ms)
    }

    /// The answer to a lookup of `session_id`, given what the store held
    /// under its key, at the present time.
    pub fn get_session(&self, session_id: &str, stored: StoredSession) -> (r: SessionLookup)
        ensures
            exists|now: int| 0 <= now < CLOCK_LIMIT_MS && r == lookup_of(session_id@, stored, now),
    {
        let now_ms = clock_now_ms();
        classify_stored(session_id, stored, now_ms)
    }

    /// The key to delete so that the session `session_id` is gone. Deleting
    /// a key that holds nothing is no error.
    pub fn delete_session(&self, session_id: &str) -> (r: String)
        ensures
            r@ == store_key(session_id@),
    {
        storage_key(session_id)
    }
}

/// The store as a map from keys to session records.
pub type StoreModel = Map<Seq<char>, Session>;

/// The store after writing session `s`.
pub open spec fn after_create(m: StoreModel, s: Session) -> StoreModel {
    m.insert(store_key(s.session_id@), s)
}

/// What reading the session `id` from the store finds.
pub open spec fn stored_at(m: StoreModel, id: Seq<char>) -> StoredSession {
    if m.contains_key(store_key(id)) {
        StoredSession::Found(m[store_key(id)])
    } else {
        StoredSession::Missing
    }
}

/// The store after deleting session `id`.
pub open spec fn after_delete(m: StoreModel, id: Seq<char>) -> StoreModel {
    m.remove(store_key(id))
}

/// The store after looking up session `id` at `now`: an expired record is
/// removed.
pub open spec fn after_lookup(m: StoreModel, id: Seq<char>, now: int) -> StoreModel {
    if lookup_of(id, stored_at(m, id), now) is Expired {
        after_delete(m, id)
    } else {
        m
    }
}

/// A session created at `created` and read back before 24 hours have passed
/// is found live, with the user id it was made for and an expiry 24 hours
/// after its creation.
pub proof fn lemma_create_then_get(
    m: StoreModel,
    user_id: i64,
    session_id: String,
    session_key: String,
    created: i64,
    now: int,
)
    requires
        created <= i64::MAX - SESSION_TTL_MS,
        created <= now < created + SESSION_TTL_MS,
    ensures
        ({
            let s = Session {
                user_id,
                session_id,
                session_key,
                expires_at: (created + SESSION_TTL_MS) as i64,
            };
            &&& lookup_of(session_id@, stored_at(after_create(m, s), session_id@), now)
                == SessionLookup::Live(s)
            &&& s.user_id == user_id
            &&& s.expires_at - now <= SESSION_TTL_MS
        }),
{
}

/// Looking up an id that the store holds nothing for answers absent.
pub proof fn lemma_get_unknown(m: StoreModel, id: Seq<char>, now: int)
    requires
        !m.contains_key(store_key(id)),
    ensures
        lookup_of(id, stored_at(m, id), now) == SessionLookup::Absent,
        after_lookup(m, id, now) == m,
{
}

/// An expired session is never answered as live; its record is removed by
/// the lookup, so that a second lookup answers absent as well.
pub proof fn lemma_expired_stays_absent(m: StoreModel, id: Seq<char>, now: int, later: int)
    requires
        m.contains_key(store_key(id)),
        m[store_key(id)].session_id@ == id,
        !is_live(m[store_key(id)], now),
    ensures
        lookup_of(id, stored_at(m, id), now) == SessionLookup::Expired,
        lookup_of(id, stored_at(after_lookup(m, id, now), id), later) == SessionLookup::Absent,
{
}

/// Deleting is idempotent: a second delete changes nothing, and deleting an
/// id that was never stored leaves the store as it was.
pub proof fn lemma_delete_idempotent(m: StoreModel, id: Seq<char>)
    ensures
        after_delete(after_delete(m, id), id) == after_delete(m, id),
        !m.contains_key(store_key(id)) ==> after_delete(m, id) == m,
        stored_at(after_delete(m, id), id) == StoredSession::Missing,
{
    assert(after_delete(after_delete(m, id), id) =~= after_delete(m, id));
    if !m.contains_key(store_key(id)) {
        assert(after_delete(m, id) =~= m);
    }
}

} // verus!
