//! What the service decides outside any catalog request: how it greets a
//! caller, and whether its table is ready when it starts.

use crate::response_body::VersionResponse;
use vstd::prelude::*;
use vstd::string::StringExecFns;

verus! {

/// Whether `needle` stands somewhere in `text`.
pub open spec fn occurs_in(needle: Seq<char>, text: Seq<char>) -> bool {
    exists|at: int|
        0 <= at && at + needle.len() <= text.len() && #[trigger] text.subrange(
            at,
            at + needle.len(),
        ) == needle
}

/// `str::contains` with a text as the pattern. Trusted: the answer is
/// whether the pattern stands somewhere in the text.
#[verifier::external_body]
fn contains_text(text: &str, needle: &str) -> (found: bool)
    ensures
        found == occurs_in(needle@, text@),
{
    text.contains(needle)
}

/// The greeting for a caller: by name for one who is logged in.
pub open spec fn greeting(user: Option<Seq<char>>) -> Seq<char> {
    match user {
        Some(name) => "Hello "@ + name + "!"@,
        None => "Hello anonymous user!"@,
    }
}

pub fn greet(user: Option<&str>) -> (text: String)
    ensures
        text@ == greeting(
            match user {
                Some(name) => Some(name@),
                None => None,
            },
        ),
{
    match user {
        Some(name) => {
            let mut text = "Hello ".to_string();
            text.append(name);
            text.append("!");
            text
        },
        None => "Hello anonymous user!".to_string(),
    }
}

/// The HTTP status and the text of the greeting.
pub fn greeting_response(user: Option<&str>) -> (r: (u16, String))
    ensures
        r.0 == 200,
        r.1@ == greeting(
            match user {
                Some(name) => Some(name@),
                None => None,
            },
        ),
{
    (200, greet(user))
}

/// The HTTP status and the body of the response that names the running
/// version.
pub fn version_response(version: String) -> (r: (u16, VersionResponse))
    ensures
        r.0 == 200,
        r.1.code == 200,
        r.1.message@ == "OK"@,
        r.1.version == Some(version),
{
    (200, VersionResponse::running(version))
}

/// The words by which the database says that a table is there already.
pub open spec fn already_exists() -> Seq<char> {
    "already exists"@
}

/// Whether the service may start after it tried to create its table: the
/// table was created, or the database's error says that it exists already.
pub fn table_ready(creation_error: Option<&str>) -> (ready: bool)
    ensures
        ready == match creation_error {
            None => true,
            Some(error) => occurs_in(already_exists(), error@),
        },
{
    match creation_error {
        None => true,
        Some(error) => contains_text(error, "already exists"),
    }
}

} // verus!
