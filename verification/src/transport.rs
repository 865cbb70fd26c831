//! Session-transport plumbing that is plain computation: deriving the
//! WebSocket endpoint from the service's HTTP base URL, building the URL of
//! a followed command-log stream, and rendering the authentication header.
//! Opening the socket itself is I/O and lives with the caller.

use vstd::prelude::*;

use crate::text::{replace_str, spec_replace, trim_trailing, trim_trailing_char};

verus! {

use vstd::string::StringExecFns;

/// The WebSocket form of a base URL: `https` becomes `wss`, `http` becomes
/// `ws`, and trailing slashes go.
pub open spec fn spec_ws_base(base: Seq<char>) -> Seq<char> {
    trim_trailing(
        spec_replace(spec_replace(base, "https://"@, "wss://"@), "http://"@, "ws://"@),
        '/',
    )
}

/// Derive the WebSocket base URL from the service's HTTP base URL.
pub fn ws_base_url(base: &str) -> (r: String)
    ensures
        r@ == spec_ws_base(base@),
{
    proof {
        reveal_strlit("https://");
        reveal_strlit("http://");
    }
    let secure = replace_str(base, "https://", "wss://");
    let plain = replace_str(secure.as_str(), "http://", "ws://");
    trim_trailing_char(plain.as_str(), '/').to_owned()
}

/// The URL that follows one session command's logs over a WebSocket.
pub open spec fn spec_logs_stream_url(
    base: Seq<char>,
    session_id: Seq<char>,
    command_id: Seq<char>,
) -> Seq<char> {
    spec_ws_base(base) + "/process/session/"@ + session_id + "/command/"@ + command_id
        + "/logs?follow=true"@
}

/// Build the URL that follows one session command's logs.
pub fn logs_stream_url(base: &str, session_id: &str, command_id: &str) -> (r: String)
    ensures
        r@ == spec_logs_stream_url(base@, session_id@, command_id@),
{
    let mut r = ws_base_url(base);
    r.append("/process/session/");
    r.append(session_id);
    r.append("/command/");
    r.append(command_id);
    r.append("/logs?follow=true");
    r
}

/// The URL of the code-interpreter execution endpoint.
pub open spec fn spec_interpreter_url(base: Seq<char>) -> Seq<char> {
    spec_ws_base(base) + "/process/interpreter/execute"@
}

/// Build the URL of the code-interpreter execution endpoint.
pub fn interpreter_url(base: &str) -> (r: String)
    ensures
        r@ == spec_interpreter_url(base@),
{
    let mut r = ws_base_url(base);
    r.append("/process/interpreter/execute");
    r
}

/// Render a bearer token as the `Authorization` header value.
pub fn bearer_header_value(token: &str) -> (r: String)
    ensures
        r@ == "Bearer "@ + token@,
{
    let mut r: String = "Bearer ".to_owned();
    r.append(token);
    r
}

/// Render a PTY resize request path for a session.
pub fn pty_resize_path(session_id: &str) -> (r: String)
    ensures
        r@ == "/process/pty/"@ + session_id@ + "/resize"@,
{
    let mut r: String = "/process/pty/".to_owned();
    r.append(session_id);
    r.append("/resize");
    r
}

/// Render the PTY session path, used to kill the session out of band.
pub fn pty_session_path(session_id: &str) -> (r: String)
    ensures
        r@ == "/process/pty/"@ + session_id@,
{
    let mut r: String = "/process/pty/".to_owned();
    r.append(session_id);
    r
}

/// Render the polling URL of a snapshot, whose build state gates the log
/// stream.
pub fn snapshot_path(snapshot_id: &str) -> (r: String)
    ensures
        r@ == "/snapshot/"@ + snapshot_id@,
{
    let mut r: String = "/snapshot/".to_owned();
    r.append(snapshot_id);
    r
}

/// Render the follow URL for a snapshot's build logs.
pub fn build_logs_url(base: &str, snapshot_id: &str) -> (r: String)
    ensures
        r@ == base@ + "/snapshots/"@ + snapshot_id@ + "/build-logs?follow=true"@,
{
    let mut r: String = base.to_owned();
    r.append("/snapshots/");
    r.append(snapshot_id);
    r.append("/build-logs?follow=true");
    r
}

} // verus!
