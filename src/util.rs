use base64::Engine;
use rand::distributions::DistString;
use vstd::prelude::*;
use vstd::string::{StringSliceAdditionalSpecFns, StrSliceExecFns, StringExecFns};
use vstd::utf8::{decode_utf8, valid_utf8};
use crate::error::{ApiError, ErrorKind};

verus! {

/// An ASCII letter or digit: what the alphanumeric distribution draws.
pub open spec fn is_alphanumeric(c: char) -> bool {
    ('A' <= c && c <= 'Z') || ('a' <= c && c <= 'z') || ('0' <= c && c <= '9')
}

pub open spec fn all_alphanumeric(s: Seq<char>) -> bool {
    forall|i: int| 0 <= i < s.len() ==> is_alphanumeric(#[trigger] s[i])
}

/// What the standard base64 alphabet, with padding, encodes `b` as.
pub uninterp spec fn base64_text_of(b: Seq<u8>) -> Seq<char>;

/// The bytes that standard base64 decodes `s` to, if `s` is well formed.
pub uninterp spec fn base64_bytes_of(s: Seq<u8>) -> Option<Seq<u8>>;

/// Relies on rand's `Alphanumeric` distribution sampled from `OsRng`: `n`
/// characters, each from `A-Z`, `a-z` and `0-9`.
#[verifier::external_body]
fn sample_alphanumeric(n: usize) -> (r: String)
    ensures
        r@.len() == n,
        all_alphanumeric(r@),
{
    rand::distributions::Alphanumeric.sample_string(&mut rand::rngs::OsRng, n)
}

/// Relies on `String::from_utf8`: succeeds exactly on valid UTF-8 and keeps
/// the characters that the bytes encode.
#[verifier::external_body]
pub(crate) fn string_from_utf8(b: Vec<u8>) -> (r: Option<String>)
    ensures
        r is Some <==> valid_utf8(b@),
        r matches Some(s) ==> s@ == decode_utf8(b@),
{
    String::from_utf8(b).ok()
}

/// Relies on base64's `STANDARD` engine `encode`.
#[verifier::external_body]
fn standard_encode(input: &[u8]) -> (r: String)
    ensures
        r@ == base64_text_of(input@),
{
    base64::engine::general_purpose::STANDARD.encode(input)
}

/// Relies on base64's `STANDARD` engine `decode`: the decoded bytes, or
/// nothing where the input is not well-formed base64.
#[verifier::external_body]
fn standard_decode(input: &[u8]) -> (r: Option<Vec<u8>>)
    ensures
        match base64_bytes_of(input@) {
            Some(v) => r matches Some(w) && w@ == v,
            None => r is None,
        },
{
    base64::engine::general_purpose::STANDARD.decode(input).ok()
}

/// A fresh random string of `length` ASCII letters and digits, drawn from the
/// operating system's secure generator.
pub fn random_string(length: usize) -> (r: String)
    ensures
        r@.len() == length,
        all_alphanumeric(r@),
{
    sample_alphanumeric(length)
}

/// `prefix` followed by random letters and digits, `length` bytes in all.
pub fn random_string_with_prefix(length: usize, prefix: &str) -> (r: String)
    requires
        prefix.spec_bytes().len() <= length,
    ensures
        r@.subrange(0, prefix@.len() as int) == prefix@,
        r@.len() == prefix@.len() + (length - prefix.spec_bytes().len()),
        all_alphanumeric(r@.subrange(prefix@.len() as int, r@.len() as int)),
{
    let rest = random_string(length - prefix.len());
    let mut r = prefix.to_owned();
    r.append(rest.as_str());
    assert(r@.subrange(0, prefix@.len() as int) =~= prefix@);
    assert(r@.subrange(prefix@.len() as int, r@.len() as int) =~= rest@);
    r
}

/// Standard base64 encoding, with padding.
pub fn base64_encode(input: &[u8]) -> (r: String)
    ensures
        r@ == base64_text_of(input@),
{
    standard_encode(input)
}

/// Standard base64 decoding; malformed input is a format error.
pub fn base64_decode(input: &[u8]) -> (r: Result<Vec<u8>, ApiError>)
    ensures
        match base64_bytes_of(input@) {
            Some(v) => r matches Ok(w) && w@ == v,
            None => r == Err::<Vec<u8>, ApiError>(ApiError { kind: ErrorKind::Format }),
        },
{
    match standard_decode(input) {
        Some(v) => Ok(v),
        None => Err(ApiError::new(ErrorKind::Format)),
    }
}

/// The text that `input` holds in base64; malformed base64 or bytes that are
/// not UTF-8 are a format error.
pub fn base64_decode_string(input: &str) -> (r: Result<String, ApiError>)
    ensures
        match base64_bytes_of(input.spec_bytes()) {
            Some(v) => if valid_utf8(v) {
                r matches Ok(s) && s@ == decode_utf8(v)
            } else {
                r == Err::<String, ApiError>(ApiError { kind: ErrorKind::Format })
            },
            None => r == Err::<String, ApiError>(ApiError { kind: ErrorKind::Format }),
        },
{
    let bytes = base64_decode(input.as_bytes())?;
    match string_from_utf8(bytes) {
        Some(s) => Ok(s),
        None => Err(ApiError::new(ErrorKind::Format)),
    }
}

} // verus!
