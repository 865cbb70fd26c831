use daytona::error::DaytonaError;
use daytona::pty::{ConnectionWait, PtyEvent, PtySessionState, CONNECT_TIMEOUT_MS};

fn connected_frame() -> PtyEvent {
    PtyEvent::Text("{\"type\":\"control\",\"status\":\"connected\"}".to_string())
}

#[test]
fn connected_control_frame_latches_connection() {
    let mut state = PtySessionState::new();
    let eff = state.handle_event(connected_frame());
    assert!(eff.forward.is_none());
    assert!(!eff.terminal);
    assert!(state.is_connected());
    assert!(matches!(
        state.wait_for_connection_step(0),
        ConnectionWait::Ready
    ));
}

#[test]
fn wait_for_connection_times_out() {
    let state = PtySessionState::new();
    assert!(matches!(
        state.wait_for_connection_step(0),
        ConnectionWait::Pending
    ));
    assert!(matches!(
        state.wait_for_connection_step(CONNECT_TIMEOUT_MS - 1),
        ConnectionWait::Pending
    ));
    match state.wait_for_connection_step(CONNECT_TIMEOUT_MS) {
        ConnectionWait::Failed(e) => {
            assert!(e.is_timeout());
            assert_eq!(e.message(), "PTY connection timeout");
        }
        _ => panic!("expected a timeout"),
    }
}

#[test]
fn error_control_frame_fails_connection_wait() {
    let mut state = PtySessionState::new();
    let eff = state.handle_event(PtyEvent::Text(
        "{\"type\":\"control\",\"status\":\"error\",\"error\":\"boom\"}".to_string(),
    ));
    assert!(eff.forward.is_none());
    assert!(!state.is_connected());
    match state.wait_for_connection_step(0) {
        ConnectionWait::Failed(DaytonaError::Network(m)) => assert_eq!(m, "boom"),
        _ => panic!("expected a network error"),
    }
}

#[test]
fn error_control_frame_without_message_gets_stock_text() {
    let mut state = PtySessionState::new();
    state.handle_event(PtyEvent::Text(
        "{\"type\":\"control\",\"status\":\"error\"}".to_string(),
    ));
    assert_eq!(state.error(), Some("Unknown connection error".to_string()));
}

#[test]
fn plain_text_is_forwarded_verbatim() {
    let mut state = PtySessionState::new();
    let eff = state.handle_event(PtyEvent::Text("hello".to_string()));
    assert_eq!(eff.forward, Some(b"hello".to_vec()));
    assert!(!eff.terminal);
    // Text that is JSON but no control message is forwarded too.
    let eff = state.handle_event(PtyEvent::Text("{\"type\":\"other\"}".to_string()));
    assert_eq!(eff.forward, Some(b"{\"type\":\"other\"}".to_vec()));
}

#[test]
fn binary_is_forwarded_and_ping_ignored() {
    let mut state = PtySessionState::new();
    let eff = state.handle_event(PtyEvent::Binary(vec![1, 2, 3]));
    assert_eq!(eff.forward, Some(vec![1, 2, 3]));
    let eff = state.handle_event(PtyEvent::Ping);
    assert!(eff.forward.is_none());
    assert!(!eff.terminal);
}

#[test]
fn close_with_exit_data_latches_code_and_reason() {
    let mut state = PtySessionState::new();
    state.handle_event(connected_frame());
    let eff = state.handle_event(PtyEvent::Close(Some(
        "{\"exitCode\":137,\"exitReason\":\"killed\"}".to_string(),
    )));
    assert!(eff.terminal);
    assert_eq!(state.exit_code(), Some(137));
    assert_eq!(state.error(), Some("killed".to_string()));
    assert!(!state.is_connected());
}

#[test]
fn close_with_empty_reason_is_clean_exit() {
    let mut state = PtySessionState::new();
    state.handle_event(connected_frame());
    state.handle_event(PtyEvent::Close(Some("".to_string())));
    assert_eq!(state.exit_code(), Some(0));
    assert_eq!(state.error(), None);
}

#[test]
fn close_without_reason_is_clean_exit() {
    let mut state = PtySessionState::new();
    state.handle_event(PtyEvent::Close(None));
    assert_eq!(state.exit_code(), Some(0));
    assert_eq!(state.error(), None);
}

#[test]
fn close_with_unparseable_reason_is_clean_exit() {
    let mut state = PtySessionState::new();
    state.handle_event(PtyEvent::Close(Some("process went away".to_string())));
    assert_eq!(state.exit_code(), Some(0));
    assert_eq!(state.error(), None);
}

#[test]
fn close_reason_error_field_wins_over_exit_reason() {
    let mut state = PtySessionState::new();
    state.handle_event(PtyEvent::Close(Some(
        "{\"exitCode\":1,\"exitReason\":\"killed\",\"error\":\"oom\"}".to_string(),
    )));
    assert_eq!(state.exit_code(), Some(1));
    assert_eq!(state.error(), Some("oom".to_string()));
}

#[test]
fn send_input_fails_once_disconnected() {
    let mut state = PtySessionState::new();
    state.handle_event(connected_frame());
    assert!(state.check_send_input().is_ok());
    state.handle_event(PtyEvent::Close(None));
    match state.check_send_input() {
        Err(DaytonaError::Network(m)) => assert_eq!(m, "PTY is not connected"),
        _ => panic!("expected a network error"),
    }
}

#[test]
fn send_input_fails_before_connecting() {
    let state = PtySessionState::new();
    match state.check_send_input() {
        Err(e) => assert_eq!(e.message(), "PTY is not connected"),
        Ok(_) => panic!("expected an error"),
    }
}

#[test]
fn transport_error_latches_message() {
    let mut state = PtySessionState::new();
    state.handle_event(connected_frame());
    let eff = state.handle_event(PtyEvent::TransportError("socket torn".to_string()));
    assert!(eff.terminal);
    assert!(!state.is_connected());
    assert_eq!(state.error(), Some("socket torn".to_string()));
    match state.wait_step() {
        Some(Err(DaytonaError::Network(m))) => assert_eq!(m, "socket torn"),
        _ => panic!("expected a network error"),
    }
}

#[test]
fn already_closed_error_is_clean_exit() {
    let mut state = PtySessionState::new();
    let eff = state.handle_event(PtyEvent::ClosedError);
    assert!(eff.terminal);
    assert_eq!(state.exit_code(), Some(0));
    assert_eq!(state.wait_step(), Some(Ok(0)));
}

#[test]
fn stream_end_is_clean_exit_if_nothing_latched() {
    let mut state = PtySessionState::new();
    state.handle_event(PtyEvent::StreamEnd);
    assert_eq!(state.exit_code(), Some(0));
}

#[test]
fn wait_step_pends_until_something_latches() {
    let mut state = PtySessionState::new();
    assert!(state.wait_step().is_none());
    state.handle_event(connected_frame());
    assert!(state.wait_step().is_none());
    state.handle_event(PtyEvent::Close(Some("{\"exitCode\":3}".to_string())));
    assert_eq!(state.wait_step(), Some(Ok(3)));
}
