//! Client-side core of a remote sandbox compute service SDK.
//!
//! The heart of the crate is the real-time session layer: a pseudo-terminal
//! (PTY) session state machine driven by WebSocket events, and a log-stream
//! demultiplexer that splits one marker-delimited byte stream into stdout
//! and stderr chunks. Around it stand the Dockerfile builder, the error
//! taxonomy, the code-execution command builders and the data types that the
//! wider SDK exchanges with the service.

pub mod code_toolbox;
pub mod demux;
pub mod error;
pub mod image;
pub mod otel;
pub mod pty;
pub mod text;
pub mod transport;
pub mod types;
