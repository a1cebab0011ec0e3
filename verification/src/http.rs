//! The plain request, response and log-record values that the transport
//! layer exchanges with the pipeline. The transport extracts these from the
//! wire (and serializes them back); the pipeline only ever sees and produces
//! these values.

use vstd::prelude::*;

use crate::error::Error;

verus! {

/// The request methods the pipeline distinguishes; anything else routes to
/// the fallback.
#[derive(Clone, Copy, Debug, PartialEq, Eq, Structural)]
pub enum Method {
    Get,
    Post,
    Delete,
    Other,
}

/// The already-extracted request payload. The transport parses the wire body
/// into the shape its route calls for and hands the plain values over.
#[derive(Debug)]
pub enum RequestBody {
    Empty,
    CreateTicket { title: String },
    Login { username: String, password: String },
}

/// One inbound request, as the pipeline sees it.
#[derive(Debug)]
pub struct Request {
    pub method: Method,
    pub path: String,
    /// The value of the auth cookie, if the request carried one.
    pub cookie: Option<String>,
    pub body: RequestBody,
}

/// One outbound response: a status, a body already rendered to its wire
/// shape, and optionally a value to (re)set the auth cookie to.
#[derive(Debug)]
pub struct Response {
    pub status: u16,
    pub body: String,
    pub set_cookie: Option<String>,
}

/// The log record emitted once per request, success or failure: the
/// correlation id, what was asked, who asked (when resolved), the internal
/// error detail (never shown to the client) and the client-facing code.
#[derive(Debug)]
pub struct LogRecord {
    pub req_uuid: String,
    pub method: Method,
    pub path: String,
    pub user_id: Option<u64>,
    pub error: Option<Error>,
    pub client_error_code: Option<String>,
}

/// Everything one request produces: the response and its log record.
#[derive(Debug)]
pub struct Outcome {
    pub response: Response,
    pub log: LogRecord,
}

/// The view of an optional owned string.
pub open spec fn opt_string_view(o: Option<String>) -> Option<Seq<char>> {
    match o {
        None => None,
        Some(s) => Some(s@),
    }
}

} // verus!
