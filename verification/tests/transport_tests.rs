use daytona::transport::{
    bearer_header_value, build_logs_url, interpreter_url, logs_stream_url, pty_resize_path,
    pty_session_path, snapshot_path, ws_base_url,
};

#[test]
fn ws_base_swaps_scheme_and_trims() {
    assert_eq!(ws_base_url("https://api.example.com/"), "wss://api.example.com");
    assert_eq!(ws_base_url("http://api.example.com"), "ws://api.example.com");
    assert_eq!(ws_base_url("wss://api.example.com"), "wss://api.example.com");
}

#[test]
fn logs_stream_url_shape() {
    assert_eq!(
        logs_stream_url("https://api.example.com/", "s1", "c1"),
        "wss://api.example.com/process/session/s1/command/c1/logs?follow=true"
    );
}

#[test]
fn interpreter_url_shape() {
    assert_eq!(
        interpreter_url("http://api.example.com"),
        "ws://api.example.com/process/interpreter/execute"
    );
}

#[test]
fn auth_and_paths() {
    assert_eq!(bearer_header_value("tok"), "Bearer tok");
    assert_eq!(pty_resize_path("sid"), "/process/pty/sid/resize");
    assert_eq!(pty_session_path("sid"), "/process/pty/sid");
    assert_eq!(snapshot_path("sn"), "/snapshot/sn");
    assert_eq!(
        build_logs_url("https://api.example.com", "sn"),
        "https://api.example.com/snapshots/sn/build-logs?follow=true"
    );
}
