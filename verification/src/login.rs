//! The login transaction: the redirect to the provider with a single-use
//! state value kept in the session, and the check of the state that the
//! provider's callback returns.

use crate::provider::{state_token, ProviderConfig};
use crate::response_body::{AuthUrlResponse, BasicResponse};
use crate::response_code::ResponseCode;
use crate::session::{
    entry, no_entries, read_string, session_insert, session_purge, session_purged,
    session_remove, session_strings, stored_string, text_of,
};
use actix_session::Session;
use vstd::prelude::*;

verus! {

/// The session key under which the pending state value is kept.
pub open spec fn state_key() -> Seq<char> {
    "CSRF_state"@
}

/// The session key under which the pending state value is kept.
pub fn state_key_name() -> (key: &'static str)
    ensures
        key@ == state_key(),
{
    "CSRF_state"
}

/// The state value that a session is waiting for, if any.
pub open spec fn pending_state(session: Session) -> Option<Seq<char>> {
    stored_string(session, state_key())
}

/// The session store did not take a write.
#[derive(Clone, Copy, Debug, PartialEq, Eq, Structural)]
pub struct SessionWriteError;

impl SessionWriteError {
    /// The HTTP status and the body of the response to a login that could
    /// not begin: an internal error, and no URL.
    pub fn response(&self) -> (r: (u16, BasicResponse<'static>))
        ensures
            r.0 == 500,
            r.1.code == ResponseCode::SystemInternalError.value(),
            r.1.message@ == "Failed to insert CSRF state."@,
    {
        (
            500,
            BasicResponse::new(ResponseCode::SystemInternalError, "Failed to insert CSRF state."),
        )
    }
}

/// The HTTP status and the body of the response to a logout.
pub fn logged_out() -> (r: (u16, BasicResponse<'static>))
    ensures
        r.0 == 200,
        r.1.code == ResponseCode::Success.value(),
        r.1.message@ == "Logout success!"@,
{
    (200, BasicResponse::new(ResponseCode::Success, "Logout success!"))
}

/// The HTTP status and the body of the response to a login that began with
/// `url`.
pub fn redirect_response<'a>(url: &'a str) -> (r: (u16, AuthUrlResponse<'a>))
    ensures
        r.0 == 200,
        r.1.code == ResponseCode::Success.value(),
        r.1.message@ == "Success"@,
        r.1.url matches Some(given) && given@ == url@,
{
    (200, AuthUrlResponse::success(url))
}

/// Why a callback's state value was turned down.
#[derive(Clone, Copy, Debug, PartialEq, Eq, Structural)]
pub enum CsrfError {
    /// The session was not waiting for any state value.
    MissingState,
    /// The session was waiting for another state value.
    Mismatch,
}

/// What the provider's callback brings: untrusted until `validate` has
/// accepted its state.
#[derive(Debug)]
pub struct CallbackPayload {
    pub code: String,
    pub state: String,
}

/// The entries of a session after a login has begun with `token`: the state
/// key holds the token, whatever it held before, and nothing else changed.
pub open spec fn entries_after_begin(
    entries: Map<Seq<char>, Seq<char>>,
    token: Seq<char>,
) -> Map<Seq<char>, Seq<char>> {
    entries.insert(state_key(), token)
}

/// The entries of a session after a callback has been checked. The state
/// key is gone in every case. A session that takes writes has lost that key
/// and nothing else. A session flagged for deletion takes no single removal:
/// where it held the key it is cleared as a whole, and where it did not it
/// is as before.
pub open spec fn entries_after_callback(
    entries: Map<Seq<char>, Seq<char>>,
    flagged: bool,
) -> Map<Seq<char>, Seq<char>> {
    if flagged && entries.contains_key(state_key()) {
        no_entries()
    } else {
        entries.remove(state_key())
    }
}

/// The verdict on a returned state value, given what the session was waiting
/// for: exact equality with a stored value, and nothing else, is accepted.
pub open spec fn csrf_verdict(stored: Option<Seq<char>>, returned: Seq<char>) -> Result<
    (),
    CsrfError,
> {
    match stored {
        None => Err(CsrfError::MissingState),
        Some(token) => if token == returned {
            Ok(())
        } else {
            Err(CsrfError::Mismatch)
        },
    }
}

/// How a session stands after `validate` relative to before it: its flag is
/// as it was, and its entries are those that `entries_after_callback` gives.
pub open spec fn state_consumed(before: Session, after: Session) -> bool {
    &&& session_purged(after) == session_purged(before)
    &&& session_strings(after) == entries_after_callback(
        session_strings(before),
        session_purged(before),
    )
}

/// Compares a returned state value with the stored one.
pub fn check_state(stored: Option<String>, returned: &String) -> (r: Result<(), CsrfError>)
    ensures
        r == csrf_verdict(text_of(stored), returned@),
{
    match stored {
        None => Err(CsrfError::MissingState),
        Some(token) => {
            if token == *returned {
                Ok(())
            } else {
                Err(CsrfError::Mismatch)
            }
        },
    }
}

/// Checks the state that a callback returns against the one the session is
/// waiting for, and uses the stored value up: it is gone afterwards whether
/// the check passes or not, from every session.
///
/// The value is read and removed under one exclusive borrow, so nothing else
/// that goes through this handle can see it in between. That is as far as
/// the check reaches. Two requests that carry the same session cookie are
/// each given a copy of the stored session, and both copies hold the value:
/// whether the second request can still present it is decided by the store
/// behind the sessions, which this check does not lock.
pub fn validate(session: &mut Session, payload: &CallbackPayload) -> (r: Result<(), CsrfError>)
    ensures
        r == csrf_verdict(pending_state(*old(session)), payload.state@),
        state_consumed(*old(session), *final(session)),
        pending_state(*final(session)).is_none(),
{
    let stored = read_string(session, state_key_name());
    session_remove(session, state_key_name());
    if stored.is_some() {
        // A session that is flagged for deletion ignores the removal of one
        // key; it is cleared as a whole instead.
        let left = read_string(session, state_key_name());
        if left.is_some() {
            session_purge(session);
        }
    }
    proof {
        let before = session_strings(*old(session));
        if stored.is_none() {
            assert(before.remove(state_key()) =~= before);
        }
    }
    check_state(stored, &payload.state)
}

/// Decides whether a login may go ahead after its state value was written:
/// only if the store took the write and now returns that very value.
pub fn confirm_stored(
    written: bool,
    read_back: Option<String>,
    token: &String,
    url: String,
) -> (r: Result<String, SessionWriteError>)
    ensures
        r.is_ok() == (written && text_of(read_back) == Some(token@)),
        r matches Ok(out) ==> out == url,
{
    if !written {
        return Err(SessionWriteError);
    }
    match read_back {
        Some(found) => {
            if found == *token {
                Ok(url)
            } else {
                Err(SessionWriteError)
            }
        },
        None => Err(SessionWriteError),
    }
}

/// Begins a login with a given state value: builds the authorization URL
/// that carries it and stores it in the session. The URL is handed out
/// exactly if the session then holds the value, which is so for every
/// session that takes writes; otherwise the session is as before.
pub fn begin_login_with_state(session: &mut Session, config: &ProviderConfig, token: &String) -> (r:
    Result<String, SessionWriteError>)
    ensures
        session_purged(*final(session)) == session_purged(*old(session)),
        match r {
            Ok(url) => {
                &&& url@ == config@.authorization_url(token@)
                &&& session_strings(*final(session)) == entries_after_begin(
                    session_strings(*old(session)),
                    token@,
                )
            },
            Err(_) => session_strings(*final(session)) == session_strings(*old(session)),
        },
        r.is_ok() == (!session_purged(*old(session)) || pending_state(*old(session)) == Some(
            token@,
        )),
{
    let url = config.authorization_url(token.as_str());
    let written = session_insert(session, state_key_name(), token.as_str()).is_ok();
    let read_back = read_string(session, state_key_name());
    let r = confirm_stored(written, read_back, token, url);
    proof {
        // A session that ignored the write holds the value only if it held
        // it before, and is then as the write would have left it.
        let before = session_strings(*old(session));
        if r.is_ok() && session_purged(*old(session)) {
            assert(before.insert(state_key(), token@) =~= before);
        }
    }
    r
}

/// Begins a login: draws a fresh state value, builds the authorization URL
/// that carries it and stores the value in the session. On a session that
/// takes writes this succeeds.
pub fn begin_login(session: &mut Session, config: &ProviderConfig) -> (r: Result<
    String,
    SessionWriteError,
>)
    ensures
        session_purged(*final(session)) == session_purged(*old(session)),
        !session_purged(*old(session)) ==> r.is_ok(),
        match r {
            Ok(url) => exists|token: Seq<char>|
                {
                    &&& state_token(token)
                    &&& url@ == #[trigger] config@.authorization_url(token)
                    &&& session_strings(*final(session)) == entries_after_begin(
                        session_strings(*old(session)),
                        token,
                    )
                },
            Err(_) => session_strings(*final(session)) == session_strings(*old(session)),
        },
{
    let token = ProviderConfig::fresh_state();
    begin_login_with_state(session, config, &token)
}

/// Beginning a login stores one state value: the session then waits for
/// exactly the value given, and only the state key was touched. Beginning a
/// second login replaces the first value; the session is as if only the
/// second had begun.
pub proof fn begin_login_overwrites(
    entries: Map<Seq<char>, Seq<char>>,
    first: Seq<char>,
    second: Seq<char>,
)
    ensures
        entry(entries_after_begin(entries, first), state_key()) == Some(first),
        entries_after_begin(entries, first).dom() == entries.dom().insert(state_key()),
        forall|key: Seq<char>|
            key != state_key() ==> entry(#[trigger] entries_after_begin(entries, first), key)
                == entry(entries, key),
        entries_after_begin(entries_after_begin(entries, first), second) == entries_after_begin(
            entries,
            second,
        ),
{
    assert(entries_after_begin(entries, first).dom() =~= entries.dom().insert(state_key()));
    assert(entries_after_begin(entries_after_begin(entries, first), second)
        =~= entries_after_begin(entries, second));
}

/// A callback that reaches a session which waits for no state value is
/// turned down as `MissingState`, whatever it returns, and the session still
/// waits for none afterwards.
pub proof fn callback_without_state_fails(before: Session, after: Session, returned: Seq<char>)
    requires
        pending_state(before).is_none(),
        state_consumed(before, after),
    ensures
        csrf_verdict(pending_state(before), returned) == Err::<(), CsrfError>(
            CsrfError::MissingState,
        ),
        pending_state(after).is_none(),
{
}

/// A callback that returns another value than the stored one is turned down
/// as `Mismatch`, and the stored value is gone afterwards all the same.
pub proof fn callback_with_other_state_fails(before: Session, after: Session, returned: Seq<char>)
    requires
        pending_state(before).is_some(),
        pending_state(before) != Some(returned),
        state_consumed(before, after),
    ensures
        csrf_verdict(pending_state(before), returned) == Err::<(), CsrfError>(
            CsrfError::Mismatch,
        ),
        pending_state(after).is_none(),
{
}

/// Once a callback has been checked, accepted or not, a second callback is
/// turned down as `MissingState`, whatever state it returns: a state value
/// cannot be used twice.
pub proof fn used_state_cannot_be_replayed(before: Session, after: Session, returned: Seq<char>)
    requires
        state_consumed(before, after),
    ensures
        csrf_verdict(pending_state(after), returned) == Err::<(), CsrfError>(
            CsrfError::MissingState,
        ),
{
}

/// The same on plain entries: after a callback no returned value is
/// accepted, a second callback changes nothing more, and a session that
/// takes writes has kept every other entry.
pub proof fn no_state_after_callback(
    entries: Map<Seq<char>, Seq<char>>,
    flagged: bool,
    returned: Seq<char>,
)
    ensures
        entry(entries_after_callback(entries, flagged), state_key()).is_none(),
        csrf_verdict(entry(entries_after_callback(entries, flagged), state_key()), returned)
            == Err::<(), CsrfError>(CsrfError::MissingState),
        entries_after_callback(entries_after_callback(entries, flagged), flagged)
            == entries_after_callback(entries, flagged),
        forall|key: Seq<char>|
            key != state_key() ==> entry(#[trigger] entries_after_callback(entries, false), key)
                == entry(entries, key),
{
    assert(entries_after_callback(entries_after_callback(entries, flagged), flagged)
        =~= entries_after_callback(entries, flagged));
}

/// A state value is accepted exactly when the session waits for that very
/// value.
pub proof fn accepted_means_equal(stored: Option<Seq<char>>, returned: Seq<char>)
    ensures
        csrf_verdict(stored, returned).is_ok() <==> stored == Some(returned),
{
}

} // verus!
