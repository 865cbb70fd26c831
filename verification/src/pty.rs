//! PTY session state machine.
//!
//! An interactive terminal session runs over a WebSocket. A background
//! receive loop owns the read half and is the only writer of the session
//! state; foreground callers read the state to decide whether to send input,
//! whether the connection is established, and how the session ended. The
//! loop's work per inbound item is pure decision logic and lives here: the
//! caller hands each inbound frame or transport event to [`PtySessionState::handle_event`]
//! and performs the returned effect (forward bytes to the output channel,
//! stop the loop).
//!
//! Control frames are JSON texts `{"type":"control","status":...}`; a close
//! frame's reason is JSON `{"exitCode":..,"exitReason":..,"error":..}`. Both
//! parses are delegated to serde_json; everything decided from the parse
//! result is verified.

use vstd::prelude::*;

use crate::error::DaytonaError;

verus! {

use vstd::string::StrSliceExecFns;

/// View of a parsed control message: the `type` field, and the optional
/// `status` and `error` fields.
pub struct ControlView {
    pub kind: Seq<char>,
    pub status: Option<Seq<char>>,
    pub error: Option<Seq<char>>,
}

/// View of a parsed close reason: the optional `exitCode`, `exitReason` and
/// `error` fields.
pub struct ExitView {
    pub code: Option<i32>,
    pub reason: Option<Seq<char>>,
    pub error: Option<Seq<char>>,
}

/// What a text parses to as a control message, if it does: a JSON object
/// with a string `type`, and `status` / `error` fields that are strings or
/// absent. Determined by the text alone.
pub uninterp spec fn control_msg_of(s: Seq<char>) -> Option<ControlView>;

/// What a close reason parses to as exit data, if it does: a JSON object
/// whose `exitCode` is an integer fitting `i32` or absent, and whose
/// `exitReason` / `error` are strings or absent. Determined by the text
/// alone.
pub uninterp spec fn exit_data_of(s: Seq<char>) -> Option<ExitView>;

/// A parsed control message.
pub struct ControlMessage {
    pub kind: String,
    pub status: Option<String>,
    pub error: Option<String>,
}

/// A parsed close reason.
pub struct ExitData {
    pub code: Option<i32>,
    pub reason: Option<String>,
    pub error: Option<String>,
}

/// The view of an optional string.
pub open spec fn opt_view(o: Option<String>) -> Option<Seq<char>> {
    match o {
        Some(s) => Some(s@),
        None => None,
    }
}

impl ControlMessage {
    /// The fields as sequences.
    pub open spec fn view_of(self) -> ControlView {
        ControlView { kind: self.kind@, status: opt_view(self.status), error: opt_view(self.error) }
    }
}

impl ExitData {
    /// The fields as sequences.
    pub open spec fn view_of(self) -> ExitView {
        ExitView { code: self.code, reason: opt_view(self.reason), error: opt_view(self.error) }
    }
}

/// Relies on serde_json::from_str and serde_json::Value's accessors: whether
/// a text is a control message, and with which fields, depends on the text
/// alone. A JSON object with a string `type` qualifies; `status` and `error`
/// must be strings, nulls or absent, anything else rejects the text.
#[verifier::external_body]
fn parse_control_message(text: &str) -> (r: Option<ControlMessage>)
    ensures
        r matches Some(m) ==> control_msg_of(text@) == Some(m.view_of()),
        r is None ==> control_msg_of(text@) is None,
{
    let v: serde_json::Value = serde_json::from_str(text).ok()?;
    let o = v.as_object()?;
    let kind = o.get("type")?.as_str()?.to_string();
    let status = match o.get("status") { None => None, Some(serde_json::Value::Null) => None, Some(s) => Some(s.as_str()?.to_string()) };
    let error = match o.get("error") { None => None, Some(serde_json::Value::Null) => None, Some(s) => Some(s.as_str()?.to_string()) };
    Some(ControlMessage { kind, status, error })
}

/// Relies on serde_json::from_str and serde_json::Value's accessors: whether
/// a close reason is exit data, and with which fields, depends on the text
/// alone. A JSON object qualifies; `exitCode` must be an integer fitting
/// `i32`, null or absent, `exitReason` and `error` strings, nulls or absent,
/// anything else rejects the text.
#[verifier::external_body]
fn parse_exit_data(reason: &str) -> (r: Option<ExitData>)
    ensures
        r matches Some(e) ==> exit_data_of(reason@) == Some(e.view_of()),
        r is None ==> exit_data_of(reason@) is None,
{
    let v: serde_json::Value = serde_json::from_str(reason).ok()?;
    let o = v.as_object()?;
    let code = match o.get("exitCode") { None => None, Some(serde_json::Value::Null) => None, Some(c) => Some(i32::try_from(c.as_i64()?).ok()?) };
    let exit_reason = match o.get("exitReason") { None => None, Some(serde_json::Value::Null) => None, Some(s) => Some(s.as_str()?.to_string()) };
    let error = match o.get("error") { None => None, Some(serde_json::Value::Null) => None, Some(s) => Some(s.as_str()?.to_string()) };
    Some(ExitData { code, reason: exit_reason, error })
}

/// Milliseconds the connection wait allows before it times out.
pub const CONNECT_TIMEOUT_MS: u64 = 10000;

/// One inbound item seen by the background receive loop: a frame, a
/// transport-level error, or the end of the stream.
pub enum PtyEvent {
    /// A text frame.
    Text(String),
    /// A binary frame.
    Binary(Vec<u8>),
    /// A ping, pong or other frame with no meaning at this layer.
    Ping,
    /// A close frame, with the reason string if the frame carried one.
    Close(Option<String>),
    /// A transport error that says the connection was already closed.
    ClosedError,
    /// Any other transport error, with its message.
    TransportError(String),
    /// The stream ended without a close frame.
    StreamEnd,
}

/// What the receive loop must do after one event: forward bytes to the
/// output channel, and stop once the event was terminal.
pub struct StepEffect {
    /// Bytes to forward to the output channel, if any.
    pub forward: Option<Vec<u8>>,
    /// Whether the session ended with this event: the loop signals waiters
    /// once and exits.
    pub terminal: bool,
}

/// The session state with its error message as a character sequence, for
/// stating contracts.
#[verifier::ext_equal]
pub struct PtyStateView {
    pub connected: bool,
    pub connection_established: bool,
    pub exit_code: Option<i32>,
    pub error: Option<Seq<char>>,
}

/// The session state shared between the background receive loop and the
/// foreground callers. Only `handle_event` mutates it. `connection_established`
/// latches true for the life of the handle, and `exit_code` and `error`,
/// once set, are never cleared.
pub struct PtySessionState {
    /// Whether input may currently be sent.
    pub connected: bool,
    /// Latch: a `connected` control message was seen at some point.
    pub connection_established: bool,
    /// The exit code, once the session ended.
    pub exit_code: Option<i32>,
    /// The error message, once one arrived.
    pub error: Option<String>,
}

impl PtySessionState {
    /// The state's fields, with the error message as a character sequence.
    pub open spec fn view_of(self) -> PtyStateView {
        PtyStateView {
            connected: self.connected,
            connection_established: self.connection_established,
            exit_code: self.exit_code,
            error: opt_view(self.error),
        }
    }
}

/// Whether a parsed text frame is a control message (of any status).
pub open spec fn is_control(parsed: Option<ControlView>) -> bool {
    parsed matches Some(m) && m.kind == "control"@
}

/// The state after a text frame whose parse is `parsed`. A `connected`
/// status latches the connection flags; an `error` status latches the
/// message (or a stock one) and drops `connected`; any other control
/// message, or a non-control text, changes nothing.
pub open spec fn next_after_text(v: PtyStateView, parsed: Option<ControlView>) -> PtyStateView {
    if is_control(parsed) {
        let m = parsed->Some_0;
        if m.status == Some("connected"@) {
            PtyStateView { connected: true, connection_established: true, ..v }
        } else if m.status == Some("error"@) {
            let msg: Seq<char> = match m.error {
                Some(e) => e,
                None => "Unknown connection error"@,
            };
            PtyStateView { connected: false, error: Some(msg), ..v }
        } else {
            v
        }
    } else {
        v
    }
}

/// What digesting a close reason string does to the state, `connected`
/// aside. An empty or unparseable reason means a clean exit with code 0;
/// parsed exit data latches its code, and its `error` field wins over
/// `exitReason` where both are present.
pub open spec fn close_reason_effect(v: PtyStateView, r: Seq<char>) -> PtyStateView {
    if r.len() == 0 {
        PtyStateView { exit_code: Some(0i32), ..v }
    } else {
        match exit_data_of(r) {
            Some(e) => PtyStateView {
                exit_code: if e.code is Some {
                    e.code
                } else {
                    v.exit_code
                },
                error: if e.error is Some {
                    e.error
                } else if e.reason is Some {
                    e.reason
                } else {
                    v.error
                },
                ..v
            },
            None => PtyStateView { exit_code: Some(0i32), ..v },
        }
    }
}

/// The state after a close frame with reason `reason` (`None`: the frame
/// carried none). `connected` drops; the reason, if any, is digested by
/// `close_reason_effect`, and a missing reason means a clean exit.
pub open spec fn next_after_close(v: PtyStateView, reason: Option<Seq<char>>) -> PtyStateView {
    let down = PtyStateView { connected: false, ..v };
    match reason {
        None => PtyStateView { exit_code: Some(0i32), ..down },
        Some(r) => close_reason_effect(down, r),
    }
}

/// The state after one inbound event.
pub open spec fn next_state(v: PtyStateView, ev: PtyEvent) -> PtyStateView {
    match ev {
        PtyEvent::Text(t) => next_after_text(v, control_msg_of(t@)),
        PtyEvent::Binary(_) => v,
        PtyEvent::Ping => v,
        PtyEvent::Close(r) => next_after_close(v, opt_view(r)),
        PtyEvent::ClosedError => PtyStateView {
            connected: false,
            exit_code: if v.exit_code is Some {
                v.exit_code
            } else {
                Some(0i32)
            },
            ..v
        },
        PtyEvent::TransportError(m) => PtyStateView { connected: false, error: Some(m@), ..v },
        PtyEvent::StreamEnd => PtyStateView {
            connected: false,
            exit_code: if v.exit_code is Some {
                v.exit_code
            } else {
                Some(0i32)
            },
            ..v
        },
    }
}

/// Whether an event ends the receive loop.
pub open spec fn event_terminal(ev: PtyEvent) -> bool {
    match ev {
        PtyEvent::Close(_) => true,
        PtyEvent::ClosedError => true,
        PtyEvent::TransportError(_) => true,
        PtyEvent::StreamEnd => true,
        _ => false,
    }
}

/// The bytes an event forwards to the output channel: a binary frame whole,
/// a text frame's UTF-8 bytes unless it is a control message, nothing else.
pub open spec fn event_forward(ev: PtyEvent) -> Option<Seq<u8>> {
    match ev {
        PtyEvent::Text(t) => if is_control(control_msg_of(t@)) {
            None
        } else {
            Some(vstd::utf8::encode_utf8(t@))
        },
        PtyEvent::Binary(d) => Some(d@),
        _ => None,
    }
}

/// The view of optionally forwarded bytes.
pub open spec fn opt_bytes_view(o: Option<Vec<u8>>) -> Option<Seq<u8>> {
    match o {
        Some(v) => Some(v@),
        None => None,
    }
}

/// What one call of `wait_for_connection_step` decides.
pub enum ConnectionWait {
    /// The connection is established; the wait returns success.
    Ready,
    /// The wait returns this error now.
    Failed(DaytonaError),
    /// Nothing decided yet; sleep briefly and ask again.
    Pending,
}

impl PtySessionState {
    /// A fresh session: not yet connected, nothing latched.
    pub fn new() -> (r: PtySessionState)
        ensures
            !r.connected,
            !r.connection_established,
            r.exit_code is None,
            r.error is None,
    {
        PtySessionState { connected: false, connection_established: false, exit_code: None, error: None }
    }

    /// Apply one inbound event. The new state is `next_state` of the old;
    /// the returned effect says what to forward and whether the loop ends.
    /// `connection_established` never falls back to false, and `exit_code`
    /// and `error`, once set, stay set.
    pub fn handle_event(&mut self, ev: PtyEvent) -> (eff: StepEffect)
        ensures
            final(self).view_of() == next_state(old(self).view_of(), ev),
            eff.terminal == event_terminal(ev),
            opt_bytes_view(eff.forward) == event_forward(ev),
            old(self).connection_established ==> final(self).connection_established,
            old(self).exit_code is Some ==> final(self).exit_code is Some,
            old(self).error is Some ==> final(self).error is Some,
    {
        match ev {
            PtyEvent::Text(text) => {
                let forward = self.handle_text(text);
                StepEffect { forward, terminal: false }
            },
            PtyEvent::Binary(data) => StepEffect { forward: Some(data), terminal: false },
            PtyEvent::Ping => StepEffect { forward: None, terminal: false },
            PtyEvent::Close(reason) => {
                self.connected = false;
                match reason {
                    Some(r) => self.apply_close_reason(r.as_str()),
                    None => {
                        self.exit_code = Some(0);
                    },
                }
                proof {
                    assert(final(self).view_of() =~= next_state(old(self).view_of(), ev));
                }
                StepEffect { forward: None, terminal: true }
            },
            PtyEvent::ClosedError => {
                if self.exit_code.is_none() {
                    self.exit_code = Some(0);
                }
                self.connected = false;
                proof {
                    assert(final(self).view_of() =~= next_state(old(self).view_of(), ev));
                }
                StepEffect { forward: None, terminal: true }
            },
            PtyEvent::TransportError(msg) => {
                self.error = Some(msg);
                self.connected = false;
                proof {
                    assert(final(self).view_of() =~= next_state(old(self).view_of(), ev));
                }
                StepEffect { forward: None, terminal: true }
            },
            PtyEvent::StreamEnd => {
                self.connected = false;
                if self.exit_code.is_none() {
                    self.exit_code = Some(0);
                }
                proof {
                    assert(final(self).view_of() =~= next_state(old(self).view_of(), ev));
                }
                StepEffect { forward: None, terminal: true }
            },
        }
    }

    /// Apply one text frame: a control message updates the state and is
    /// consumed, any other text is forwarded verbatim as bytes.
    fn handle_text(&mut self, text: String) -> (forward: Option<Vec<u8>>)
        ensures
            final(self).view_of() == next_after_text(old(self).view_of(), control_msg_of(text@)),
            opt_bytes_view(forward) == if is_control(control_msg_of(text@)) {
                None::<Seq<u8>>
            } else {
                Some(vstd::utf8::encode_utf8(text@))
            },
    {
        let parsed = parse_control_message(text.as_str());
        match parsed {
            Some(m) => {
                let control_word: String = "control".to_owned();
                if m.kind == control_word {
                    let connected_word: String = "connected".to_owned();
                    let error_word: String = "error".to_owned();
                    match m.status {
                        Some(s) => {
                            if s == connected_word {
                                self.connected = true;
                                self.connection_established = true;
                            } else if s == error_word {
                                let msg: String = match m.error {
                                    Some(e) => e,
                                    None => "Unknown connection error".to_owned(),
                                };
                                self.error = Some(msg);
                                self.connected = false;
                            }
                        },
                        None => {},
                    }
                    proof {
                        assert(final(self).view_of() =~= next_after_text(
                            old(self).view_of(),
                            control_msg_of(text@),
                        ));
                    }
                    None
                } else {
                    proof {
                        assert(final(self).view_of() =~= next_after_text(
                            old(self).view_of(),
                            control_msg_of(text@),
                        ));
                    }
                    Some(text.as_str().as_bytes_vec())
                }
            },
            None => Some(text.as_str().as_bytes_vec()),
        }
    }

    /// Digest a close frame's reason string. An empty or unparseable reason
    /// is a clean exit with code 0; parsed exit data latches its code, and
    /// its `error` field wins over `exitReason` where both are present.
    pub fn apply_close_reason(&mut self, reason: &str)
        ensures
            final(self).view_of() == close_reason_effect(old(self).view_of(), reason@),
            final(self).connected == old(self).connected,
            final(self).connection_established == old(self).connection_established,
    {
        if reason.unicode_len() == 0 {
            self.exit_code = Some(0);
            proof {
                assert(final(self).view_of() =~= close_reason_effect(old(self).view_of(), reason@));
            }
            return ;
        }
        match parse_exit_data(reason) {
            Some(e) => {
                if let Some(code) = e.code {
                    self.exit_code = Some(code);
                }
                match e.reason {
                    Some(r) => {
                        self.error = Some(r);
                    },
                    None => {},
                }
                match e.error {
                    Some(err) => {
                        self.error = Some(err);
                    },
                    None => {},
                }
                proof {
                    assert(final(self).view_of() =~= close_reason_effect(old(self).view_of(), reason@));
                }
            },
            None => {
                self.exit_code = Some(0);
                proof {
                    assert(final(self).view_of() =~= close_reason_effect(old(self).view_of(), reason@));
                }
            },
        }
    }

    /// Whether input may be sent now: fails with a "not connected" network
    /// error exactly when `connected` is false.
    pub fn check_send_input(&self) -> (r: Result<(), DaytonaError>)
        ensures
            self.connected <==> r is Ok,
            !self.connected ==> (r matches Err(e) && e matches DaytonaError::Network(m) && m@
                == "PTY is not connected"@),
    {
        if self.connected {
            Ok(())
        } else {
            Err(DaytonaError::Network("PTY is not connected".to_owned()))
        }
    }

    /// One poll of the connection wait, `elapsed_ms` after the wait began.
    /// Established wins over everything; otherwise a latched error fails the
    /// wait as a network error at once; otherwise the deadline fails it as a
    /// timeout; otherwise the caller polls again.
    pub fn wait_for_connection_step(&self, elapsed_ms: u64) -> (r: ConnectionWait)
        ensures
            self.connection_established ==> r is Ready,
            (!self.connection_established && self.error is Some) ==> (r matches
            ConnectionWait::Failed(e) && e matches DaytonaError::Network(em) && em@
                == self.error->Some_0@),
            !self.connection_established && self.error is None && elapsed_ms >= CONNECT_TIMEOUT_MS
                ==> (r matches ConnectionWait::Failed(e) && e matches DaytonaError::Timeout(em)
                && em@ == "PTY connection timeout"@),
            !self.connection_established && self.error is None && elapsed_ms < CONNECT_TIMEOUT_MS
                ==> r is Pending,
    {
        if self.connection_established {
            ConnectionWait::Ready
        } else if let Some(m) = &self.error {
            ConnectionWait::Failed(DaytonaError::Network(m.clone()))
        } else if elapsed_ms >= CONNECT_TIMEOUT_MS {
            ConnectionWait::Failed(DaytonaError::Timeout("PTY connection timeout".to_owned()))
        } else {
            ConnectionWait::Pending
        }
    }

    /// One poll of the exit wait. An exit code ends the wait with that code;
    /// otherwise a latched error ends it as a network error; otherwise the
    /// caller keeps waiting.
    pub fn wait_step(&self) -> (r: Option<Result<i32, DaytonaError>>)
        ensures
            self.exit_code matches Some(c) ==> r == Some(Ok::<i32, DaytonaError>(c)),
            (self.exit_code is None && self.error is Some) ==> (r matches Some(res)
                && res matches Err(e) && e matches DaytonaError::Network(em) && em@
                == self.error->Some_0@),
            self.exit_code is None && self.error is None ==> r is None,
    {
        match self.exit_code {
            Some(code) => Some(Ok(code)),
            None => {
                match &self.error {
                    Some(m) => Some(Err(DaytonaError::Network(m.clone()))),
                    None => None,
                }
            },
        }
    }

    /// Snapshot of the latched exit code.
    pub fn exit_code(&self) -> (r: Option<i32>)
        ensures
            r == self.exit_code,
    {
        self.exit_code
    }

    /// Snapshot of the latched error message.
    pub fn error(&self) -> (r: Option<String>)
        ensures
            opt_view(r) == opt_view(self.error),
    {
        match &self.error {
            Some(m) => Some(m.clone()),
            None => None,
        }
    }

    /// Whether the session is currently connected.
    pub fn is_connected(&self) -> (r: bool)
        ensures
            r == self.connected,
    {
        self.connected
    }
}

} // verus!
