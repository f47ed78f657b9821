//! The bodies of the service's responses: a result code, a message for the
//! reader, and what the request asked for.

use crate::entity::game::Model;
use crate::response_code::ResponseCode;
use vstd::prelude::*;

verus! {

/// The body of most responses.
pub struct BasicResponse<'a> {
    pub code: u32,
    pub message: &'a str,
}

/// The body of the response that begins a login.
pub struct AuthUrlResponse<'a> {
    pub code: u32,
    pub message: &'a str,
    pub url: Option<&'a str>,
}

pub struct SearchResponse<'a> {
    pub code: u32,
    pub message: &'a str,
    pub games: Vec<Model>,
}

pub struct InfoResponse<'a> {
    pub code: u32,
    pub message: &'a str,
    pub game: Option<Model>,
}

pub struct VersionResponse {
    pub code: u32,
    pub message: String,
    pub version: Option<String>,
}

impl<'a> BasicResponse<'a> {
    /// A body with the number of `code` and the given message.
    pub fn new(code: ResponseCode, message: &'a str) -> (r: BasicResponse<'a>)
        ensures
            r.code == code.value(),
            r.message@ == message@,
    {
        BasicResponse { code: code.code(), message }
    }
}

impl<'a> AuthUrlResponse<'a> {
    /// The body that hands out an authorization URL.
    pub fn success(url: &'a str) -> (r: AuthUrlResponse<'a>)
        ensures
            r.code == ResponseCode::Success.value(),
            r.message@ == "Success"@,
            r.url matches Some(given) && given@ == url@,
    {
        AuthUrlResponse { code: ResponseCode::Success.code(), message: "Success", url: Some(url) }
    }
}

impl<'a> SearchResponse<'a> {
    /// The body that lists the games found.
    pub fn found(games: Vec<Model>) -> (r: SearchResponse<'a>)
        ensures
            r.code == ResponseCode::Success.value(),
            r.message@ == "OK"@,
            r.games == games,
    {
        SearchResponse { code: ResponseCode::Success.code(), message: "OK", games }
    }
}

impl<'a> InfoResponse<'a> {
    /// The body that describes one game, or none where the id is unknown.
    pub fn found(game: Option<Model>) -> (r: InfoResponse<'a>)
        ensures
            r.code == ResponseCode::Success.value(),
            r.message@ == "OK"@,
            r.game == game,
    {
        InfoResponse { code: ResponseCode::Success.code(), message: "OK", game }
    }
}

impl VersionResponse {
    /// The body that names the running version.
    pub fn running(version: String) -> (r: VersionResponse)
        ensures
            r.code == 200,
            r.message@ == "OK"@,
            r.version == Some(version),
    {
        VersionResponse { code: 200, message: "OK".to_string(), version: Some(version) }
    }
}

} // verus!
