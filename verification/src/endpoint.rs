//! What the server decides at its HTTP endpoints: the text of the health
//! page and whether a client names itself as expected.

use vstd::prelude::*;
use crate::text::str_eq;

verus! {

/// The user agent by which a station's WebSocket client names itself.
pub open spec fn expected_user_agent() -> Seq<char> {
    "Websocket Client"@
}

/// Tells whether a user agent is the one expected of a station. A client
/// with another user agent, or with none, is served all the same; the
/// answer is for the log.
pub fn is_websocket_client(user_agent: &str) -> (expected: bool)
    ensures
        expected == (user_agent@ == expected_user_agent()),
{
    str_eq(user_agent, "Websocket Client")
}

/// The text of the health page: the time at which the server started, in
/// the words given for it, or that it has not started yet.
pub open spec fn health_text(started_at: Option<Seq<char>>) -> Seq<char> {
    match started_at {
        Some(time) => "<h1>Server working. Started at: "@ + time + "</h1>"@,
        None => "<h1>Server has not started yet</h1>"@,
    }
}

/// Builds the text of the health page from the time at which the server
/// started. The time is owned by the caller and handed in: the library
/// keeps no state of its own.
pub fn healthcheck_body(started_at: Option<&str>) -> (body: String)
    ensures
        body@ == health_text(
            match started_at {
                Some(time) => Some(time@),
                None => None,
            },
        ),
{
    match started_at {
        Some(time) => {
            let mut body = "<h1>Server working. Started at: ".to_owned();
            body.append(time);
            body.append("</h1>");
            body
        },
        None => "<h1>Server has not started yet</h1>".to_owned(),
    }
}

} // verus!
