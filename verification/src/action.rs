//! What the catalog's request handlers decide: the queries they take, and
//! the response to each way a request can fail.

use crate::entity::game::Model;
use crate::response_body::{BasicResponse, InfoResponse, SearchResponse};
use crate::response_code::ResponseCode;
use vstd::prelude::*;
use vstd::string::StringExecFns;

verus! {

#[derive(Debug)]
pub struct GameIDQuery {
    pub gameid: u32,
}

#[derive(Debug)]
pub struct GameNameQuery {
    pub gamename: String,
}

/// The step of a catalog request that failed.
#[derive(Clone, Copy, Debug, PartialEq, Eq, Structural)]
pub enum Failure {
    /// The database could not be reached.
    Connect,
    /// The search index could not be asked.
    Search,
    /// The game could not be stored, in the database or in the search index.
    Insert,
}

impl Failure {
    /// What the message begins with.
    pub open spec fn prefix(self) -> Seq<char> {
        match self {
            Failure::Connect => "Failed to connect to database: "@,
            Failure::Search => "Failed to search game: "@,
            Failure::Insert => "Failed to insert game: "@,
        }
    }

    /// The message of the response: the step's prefix, then the error's own
    /// words.
    pub open spec fn message(self, detail: Seq<char>) -> Seq<char> {
        self.prefix() + detail
    }

    pub fn prefix_text(self) -> (text: &'static str)
        ensures
            text@ == self.prefix(),
    {
        match self {
            Failure::Connect => "Failed to connect to database: ",
            Failure::Search => "Failed to search game: ",
            Failure::Insert => "Failed to insert game: ",
        }
    }

    pub fn message_text(self, detail: &str) -> (text: String)
        ensures
            text@ == self.message(detail@),
    {
        let mut text = self.prefix_text().to_string();
        text.append(detail);
        text
    }

    /// The result code of the response: every failed step is reported under
    /// the database's code.
    pub fn response_code(self) -> (code: ResponseCode)
        ensures
            code == ResponseCode::DatabaseConnectionError,
    {
        ResponseCode::DatabaseConnectionError
    }

    /// The HTTP status of the response.
    pub fn http_status(self) -> (status: u16)
        ensures
            status == 400,
    {
        400
    }

    /// The body of the response, around a message made by `message_text`.
    pub fn response<'a>(self, message: &'a str) -> (body: BasicResponse<'a>)
        ensures
            body.code == ResponseCode::DatabaseConnectionError.value(),
            body.message@ == message@,
    {
        BasicResponse::new(self.response_code(), message)
    }
}

/// The HTTP status and the body of the response to a request that went
/// through.
pub fn done() -> (r: (u16, BasicResponse<'static>))
    ensures
        r.0 == 200,
        r.1.code == ResponseCode::Success.value(),
        r.1.message@ == "OK"@,
{
    (200, BasicResponse::new(ResponseCode::Success, "OK"))
}

/// The HTTP status and the body of the response that describes the game
/// asked for. An id that no game has is no failure: the body then holds no
/// game.
pub fn info_found(game: Option<Model>) -> (r: (u16, InfoResponse<'static>))
    ensures
        r.0 == 200,
        r.1.code == ResponseCode::Success.value(),
        r.1.message@ == "OK"@,
        r.1.game == game,
{
    (200, InfoResponse::found(game))
}

/// The HTTP status and the body of the response that lists the games found,
/// in the order given. A search without a match is no failure: the list is
/// then empty.
pub fn search_found(games: Vec<Model>) -> (r: (u16, SearchResponse<'static>))
    ensures
        r.0 == 200,
        r.1.code == ResponseCode::Success.value(),
        r.1.message@ == "OK"@,
        r.1.games == games,
{
    (200, SearchResponse::found(games))
}

/// The HTTP status and the body of the response to a request for deletion,
/// which the service does not carry out.
pub fn not_implemented() -> (r: (u16, BasicResponse<'static>))
    ensures
        r.0 == 501,
        r.1.code == ResponseCode::NotImplemented.value(),
        r.1.message@ == "Not implemented."@,
{
    (501, BasicResponse::new(ResponseCode::NotImplemented, "Not implemented."))
}

} // verus!
