//! The HTTP side of the service: the replies to session requests and the
//! reading of session ids out of request paths.

use vstd::prelude::*;
use crate::launch::LaunchError;
use crate::pool::PoolError;
use crate::session_id::{parse_uuid, uuid_parse, uuid_text, uuid_to_text};

verus! {

pub const STATUS_OK: u16 = 200;

pub const STATUS_BAD_REQUEST: u16 = 400;

pub const STATUS_SERVER_ERROR: u16 = 500;

/// An HTTP status and a body.
#[derive(Debug)]
pub struct Reply {
    pub status: u16,
    pub body: String,
}

/// The short message that names an allocation failure.
pub open spec fn pool_error_text(e: PoolError) -> Seq<char> {
    match e {
        PoolError::AtCapacity => "no available browser slots"@,
        PoolError::EndpointInUse => "debugger endpoint already in use"@,
        PoolError::SessionIdTaken => "session id already in use"@,
        PoolError::Launch(LaunchError::NoFreePort) => "could not get a free local port"@,
        PoolError::Launch(LaunchError::LaunchFailed(m)) => "browser launch failed: "@ + m@,
        PoolError::Launch(LaunchError::NoPid) => "no pid from browser child process"@,
        PoolError::Launch(LaunchError::ConfigInvalid(m)) => "invalid browser configuration: "@ + m@,
    }
}

/// The body of a successful session request: `{"id":"<uuid>"}`.
pub open spec fn session_body(id: u128) -> Seq<char> {
    "{\"id\":\""@ + uuid_text(id) + "\"}"@
}

/// The message that names an allocation failure.
pub fn pool_error_message(e: &PoolError) -> (r: String)
    ensures
        r@ == pool_error_text(*e),
{
    match e {
        PoolError::AtCapacity => String::from_str("no available browser slots"),
        PoolError::EndpointInUse => String::from_str("debugger endpoint already in use"),
        PoolError::SessionIdTaken => String::from_str("session id already in use"),
        PoolError::Launch(LaunchError::NoFreePort) => String::from_str(
            "could not get a free local port",
        ),
        PoolError::Launch(LaunchError::LaunchFailed(m)) => String::from_str(
            "browser launch failed: ",
        ).concat(m.as_str()),
        PoolError::Launch(LaunchError::NoPid) => String::from_str(
            "no pid from browser child process",
        ),
        PoolError::Launch(LaunchError::ConfigInvalid(m)) => String::from_str(
            "invalid browser configuration: ",
        ).concat(m.as_str()),
    }
}

/// The liveness reply.
pub fn health_reply() -> (r: Reply)
    ensures
        r.status == STATUS_OK,
        r.body@ == "ok"@,
{
    Reply { status: STATUS_OK, body: String::from_str("ok") }
}

/// The reply to a request for a new session: the id as JSON, or a server error
/// that names the failure.
pub fn new_session_reply(r: &Result<u128, PoolError>) -> (reply: Reply)
    ensures
        match r {
            Ok(id) => reply.status == STATUS_OK && reply.body@ == session_body(*id),
            Err(e) => reply.status == STATUS_SERVER_ERROR && reply.body@
                == "Failed to create browser session: "@ + pool_error_text(*e),
        },
{
    match r {
        Ok(id) => {
            let text = uuid_to_text(*id);
            let body = String::from_str("{\"id\":\"").concat(text.as_str()).concat("\"}");
            Reply { status: STATUS_OK, body }
        },
        Err(e) => {
            let msg = pool_error_message(e);
            let body = String::from_str("Failed to create browser session: ").concat(msg.as_str());
            Reply { status: STATUS_SERVER_ERROR, body }
        },
    }
}

/// Turns the parse of a session path segment into the session id, or into a
/// bad-request reply that carries the parser's message.
pub fn session_id_reply(parsed: Result<u128, String>) -> (r: Result<u128, Reply>)
    ensures
        match parsed {
            Ok(v) => r matches Ok(w) && w == v,
            Err(e) => r matches Err(reply) && reply.status == STATUS_BAD_REQUEST && reply.body@
                == "Invalid session ID: "@ + e@,
        },
{
    match parsed {
        Ok(v) => Ok(v),
        Err(e) => {
            let body = String::from_str("Invalid session ID: ").concat(e.as_str());
            Err(Reply { status: STATUS_BAD_REQUEST, body })
        },
    }
}

/// Reads the session id of a `/session/{id}` request.
pub fn route_session(id_text: &str) -> (r: Result<u128, Reply>)
    ensures
        match uuid_parse(id_text@) {
            Ok(v) => r matches Ok(w) && w == v,
            Err(e) => r matches Err(reply) && reply.status == STATUS_BAD_REQUEST && reply.body@
                == "Invalid session ID: "@ + e,
        },
{
    session_id_reply(parse_uuid(id_text))
}

} // verus!
