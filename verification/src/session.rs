//! The session store as the login flow sees it: the string entries of an
//! `actix_session::Session`, read and changed through four trusted calls.
//!
//! The model covers the entries that hold a string; an entry that holds
//! another JSON value is neither described nor counted by any contract here.
//! A `Session` is a handle to state that other handles may share. The
//! contracts speak of the handle as if it were the state, which is sound as
//! long as the code that holds a handle by `&mut` holds the only one in use;
//! nothing in this library copies a handle.

use actix_session::{Session, SessionGetError, SessionInsertError};
use vstd::prelude::*;

verus! {

#[verifier::external_type_specification]
#[verifier::external_body]
pub struct ExSession(Session);

#[verifier::external_type_specification]
#[verifier::external_body]
pub struct ExSessionGetError(SessionGetError);

#[verifier::external_type_specification]
#[verifier::external_body]
pub struct ExSessionInsertError(SessionInsertError);

/// The string entries of a session: each key whose stored JSON text is a
/// JSON string, with the string it decodes to. Entries that hold other JSON
/// values are not part of it.
pub uninterp spec fn session_strings(session: Session) -> Map<Seq<char>, Seq<char>>;

/// Whether the session has been flagged for deletion. Such a session ignores
/// the writing and the removal of single entries.
pub uninterp spec fn session_purged(session: Session) -> bool;

/// The value that a map of entries holds under `key`, if any.
pub open spec fn entry(entries: Map<Seq<char>, Seq<char>>, key: Seq<char>) -> Option<Seq<char>> {
    if entries.contains_key(key) {
        Some(entries[key])
    } else {
        None
    }
}

/// The value that a session holds under `key`, if it holds a string there.
pub open spec fn stored_string(session: Session, key: Seq<char>) -> Option<Seq<char>> {
    entry(session_strings(session), key)
}

/// The text of an optional string.
pub open spec fn text_of(value: Option<String>) -> Option<Seq<char>> {
    match value {
        Some(text) => Some(text@),
        None => None,
    }
}

/// `Session::get::<String>`. Trusted: the call returns `Ok(Some(v))` exactly
/// when the session holds the string `v` under `key`; it returns `Ok(None)`
/// for a missing key and an error for an entry that is no JSON string, and
/// in both cases the key has no string entry.
#[verifier::external_body]
pub(crate) fn session_get(session: &Session, key: &str) -> (r: Result<
    Option<String>,
    SessionGetError,
>)
    ensures
        match r {
            Ok(Some(v)) => stored_string(*session, key@) == Some(v@),
            Ok(None) => stored_string(*session, key@).is_none(),
            Err(_) => stored_string(*session, key@).is_none(),
        },
{
    session.get::<String>(key)
}

/// `Session::insert` with a string value. Trusted: the call succeeds, since
/// its one error is a value that cannot be written as JSON and a string
/// always can (`serde_json::to_string` fails only for a value whose own
/// `Serialize` fails or for a map with keys that are no strings). A session
/// that is not flagged for deletion then holds `value` under `key` and is
/// otherwise as before; a flagged session keeps its entries as they were.
/// The flag itself never changes.
#[verifier::external_body]
pub(crate) fn session_insert(session: &mut Session, key: &str, value: &str) -> (r: Result<
    (),
    SessionInsertError,
>)
    ensures
        r.is_ok(),
        session_purged(*final(session)) == session_purged(*old(session)),
        !session_purged(*old(session)) ==> session_strings(*final(session)) == session_strings(
            *old(session),
        ).insert(key@, value@),
        session_purged(*old(session)) ==> session_strings(*final(session)) == session_strings(
            *old(session),
        ),
{
    session.insert(key, value)
}

/// `Session::remove`. Trusted: a session that is not flagged for deletion
/// loses its entry under `key` and keeps the others; a flagged session stays
/// as it was. The flag itself never changes.
#[verifier::external_body]
pub(crate) fn session_remove(session: &mut Session, key: &str)
    ensures
        session_purged(*final(session)) == session_purged(*old(session)),
        !session_purged(*old(session)) ==> session_strings(*final(session)) == session_strings(
            *old(session),
        ).remove(key@),
        session_purged(*old(session)) ==> session_strings(*final(session)) == session_strings(
            *old(session),
        ),
{
    let _ = session.remove(key);
}

/// The entries of a session that holds none.
pub open spec fn no_entries() -> Map<Seq<char>, Seq<char>> {
    Map::empty()
}

/// `Session::purge`. Trusted: the session is flagged for deletion afterwards
/// and holds no entry.
#[verifier::external_body]
pub(crate) fn session_purge(session: &mut Session)
    ensures
        session_purged(*final(session)),
        session_strings(*final(session)) == no_entries(),
{
    session.purge();
}

/// Reads the string stored under `key`. An entry that cannot be read as a
/// string counts as absent.
pub fn read_string(session: &Session, key: &str) -> (r: Option<String>)
    ensures
        text_of(r) == stored_string(*session, key@),
{
    match session_get(session, key) {
        Ok(Some(v)) => Some(v),
        Ok(None) => None,
        Err(_) => None,
    }
}

} // verus!
