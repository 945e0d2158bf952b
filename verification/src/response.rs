//! Response interpretation.
//!
//! Two status-code policies cover every operation. The default policy
//! accepts exactly status 200; anything else is a generic wrong-status
//! failure. The hash-aware policy additionally reads 404 as "torrent hash
//! not found", since the remote server uses 404 for exactly that on
//! operations parameterized by a torrent hash. Text bodies are decoded
//! from UTF-8 here; a body that is not UTF-8 is its own failure, distinct
//! from any status mismatch, and the status is always judged first.

use vstd::prelude::*;
use vstd::utf8::{decode_utf8, valid_utf8};

use crate::error::Error;

verus! {

/// Relies on std's str::from_utf8: it succeeds exactly on valid UTF-8 and
/// then yields the decoded characters.
#[verifier::external_body]
fn utf8_to_string(bytes: &[u8]) -> (r: Option<String>)
    ensures
        r is Some <==> valid_utf8(bytes@),
        r matches Some(s) ==> s@ == decode_utf8(bytes@),
{
    match core::str::from_utf8(bytes) {
        Ok(s) => Some(s.to_string()),
        Err(_) => None,
    }
}

/// The default policy: status 200 passes the value through, any other
/// status is a generic wrong-status failure.
pub fn check_default_status<T>(status: u16, value: T) -> (r: Result<T, Error>)
    ensures
        status == 200 ==> (r matches Ok(v) && v == value),
        status != 200 ==> r == Err::<T, Error>(Error::WrongStatusCode),
{
    match status {
        200 => Ok(value),
        _ => Err(Error::WrongStatusCode),
    }
}

/// The hash-aware policy: status 200 passes the value through, 404 means
/// the torrent hash is unknown, and any other status is a generic
/// wrong-status failure.
pub fn check_hash_status<T>(status: u16, value: T) -> (r: Result<T, Error>)
    ensures
        status == 200 ==> (r matches Ok(v) && v == value),
        status == 404 ==> r == Err::<T, Error>(Error::NoTorrentHash),
        status != 200 && status != 404 ==> r == Err::<T, Error>(Error::WrongStatusCode),
{
    match status {
        200 => Ok(value),
        404 => Err(Error::NoTorrentHash),
        _ => Err(Error::WrongStatusCode),
    }
}

/// What a text-bodied operation under the default policy returns: the
/// status is judged first, then the body must be UTF-8.
pub open spec fn text_result(status: u16, body: Seq<u8>) -> Result<Seq<char>, Error> {
    if status != 200 {
        Err(Error::WrongStatusCode)
    } else if !valid_utf8(body) {
        Err(Error::BytesToString)
    } else {
        Ok(decode_utf8(body))
    }
}

/// Decode the body of a text-bodied operation under the default policy.
pub fn text_response(status: u16, body: &[u8]) -> (r: Result<String, Error>)
    ensures
        r matches Ok(s) ==> (text_result(status, body@) matches Ok(t) && s@ == t),
        r matches Err(e) ==> text_result(status, body@) == Err::<Seq<char>, Error>(e),
{
    if status != 200 {
        return Err(Error::WrongStatusCode);
    }
    match utf8_to_string(body) {
        Some(s) => Ok(s),
        None => Err(Error::BytesToString),
    }
}

/// What a text-bodied hash-scoped operation returns: the status is judged
/// first, with 404 meaning the hash is unknown, then the body must be
/// UTF-8.
pub open spec fn hash_text_result(status: u16, body: Seq<u8>) -> Result<Seq<char>, Error> {
    if status == 404 {
        Err(Error::NoTorrentHash)
    } else if status != 200 {
        Err(Error::WrongStatusCode)
    } else if !valid_utf8(body) {
        Err(Error::BytesToString)
    } else {
        Ok(decode_utf8(body))
    }
}

/// Decode the body of a text-bodied operation under the hash-aware policy.
pub fn hash_text_response(status: u16, body: &[u8]) -> (r: Result<String, Error>)
    ensures
        r matches Ok(s) ==> (hash_text_result(status, body@) matches Ok(t) && s@ == t),
        r matches Err(e) ==> hash_text_result(status, body@) == Err::<Seq<char>, Error>(e),
{
    if status == 404 {
        return Err(Error::NoTorrentHash);
    }
    if status != 200 {
        return Err(Error::WrongStatusCode);
    }
    match utf8_to_string(body) {
        Some(s) => Ok(s),
        None => Err(Error::BytesToString),
    }
}

/// Interpreting a response is a function of the status and body alone:
/// the same read-only operation, issued twice against an unchanged remote,
/// decodes to identical results.
pub proof fn lemma_interpretation_deterministic(
    status1: u16,
    body1: Seq<u8>,
    status2: u16,
    body2: Seq<u8>,
)
    requires
        status1 == status2,
        body1 == body2,
    ensures
        text_result(status1, body1) == text_result(status2, body2),
        hash_text_result(status1, body1) == hash_text_result(status2, body2),
{
}

} // verus!
