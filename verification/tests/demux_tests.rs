use daytona::demux::{LogChannel, LogChunk, LogDemux};

const OUT: [u8; 3] = [0x01, 0x01, 0x01];
const ERR: [u8; 3] = [0x02, 0x02, 0x02];

/// All chunks a sequence of frames produces, final carry included.
fn run(frames: &[&[u8]]) -> Vec<LogChunk> {
    let mut demux = LogDemux::new();
    let mut chunks: Vec<LogChunk> = Vec::new();
    for frame in frames {
        chunks.extend(demux.feed(frame));
    }
    if let Some(last) = demux.finish() {
        chunks.push(last);
    }
    chunks
}

fn bytes_of(chunks: &[LogChunk], channel: LogChannel) -> Vec<u8> {
    let mut out = Vec::new();
    for c in chunks {
        if c.channel == channel {
            out.extend_from_slice(&c.data);
        }
    }
    out
}

/// Re-insert a marker wherever the channel switches and concatenate the data.
fn rebuild(chunks: &[LogChunk]) -> Vec<u8> {
    let mut out = Vec::new();
    let mut current = LogChannel::Stdout;
    for c in chunks {
        if c.channel != current {
            match c.channel {
                LogChannel::Stdout => out.extend_from_slice(&OUT),
                LogChannel::Stderr => out.extend_from_slice(&ERR),
            }
            current = c.channel;
        }
        out.extend_from_slice(&c.data);
    }
    out
}

#[test]
fn no_markers_all_stdout() {
    let chunks = run(&[b"hello", b" world"]);
    assert_eq!(bytes_of(&chunks, LogChannel::Stdout), b"hello world".to_vec());
    assert!(bytes_of(&chunks, LogChannel::Stderr).is_empty());
}

#[test]
fn switches_channels_at_markers() {
    let mut input = Vec::new();
    input.extend_from_slice(b"out1");
    input.extend_from_slice(&ERR);
    input.extend_from_slice(b"err1");
    input.extend_from_slice(&OUT);
    input.extend_from_slice(b"out2");
    let chunks = run(&[&input]);
    assert_eq!(bytes_of(&chunks, LogChannel::Stdout), b"out1out2".to_vec());
    assert_eq!(bytes_of(&chunks, LogChannel::Stderr), b"err1".to_vec());
    assert_eq!(rebuild(&chunks), input);
}

#[test]
fn marker_split_across_frames() {
    // The stderr marker arrives cut after its first byte.
    let whole = run(&[b"abc\x02\x02\x02def"]);
    let split = run(&[b"abc\x02", b"\x02\x02def"]);
    for chunks in [&whole, &split] {
        assert_eq!(bytes_of(chunks, LogChannel::Stdout), b"abc".to_vec());
        assert_eq!(bytes_of(chunks, LogChannel::Stderr), b"def".to_vec());
    }
}

#[test]
fn marker_split_byte_by_byte() {
    let chunks = run(&[b"x\x01", b"\x01", b"\x01y"]);
    assert_eq!(bytes_of(&chunks, LogChannel::Stdout), b"xy".to_vec());
    assert!(bytes_of(&chunks, LogChannel::Stderr).is_empty());
}

#[test]
fn back_to_back_markers_emit_no_empty_chunk() {
    let mut input = Vec::new();
    input.extend_from_slice(&OUT);
    input.extend_from_slice(&ERR);
    let chunks = run(&[&input]);
    assert!(chunks.is_empty());

    let mut with_tail = input.clone();
    with_tail.push(b'x');
    let chunks = run(&[&with_tail]);
    for c in &chunks {
        assert!(!c.data.is_empty());
    }
    assert_eq!(bytes_of(&chunks, LogChannel::Stderr), b"x".to_vec());
}

#[test]
fn stream_rebuilds_exactly() {
    let mut input = Vec::new();
    input.extend_from_slice(b"a");
    input.extend_from_slice(&ERR);
    input.extend_from_slice(b"b");
    input.extend_from_slice(&OUT);
    input.extend_from_slice(b"c\x01\x01");
    // Feed in awkward pieces.
    let mid = input.len() / 2;
    let (left, right) = input.split_at(mid);
    let chunks = run(&[left, right]);
    assert_eq!(rebuild(&chunks), input);
}

#[test]
fn trailing_partial_marker_is_data_at_stream_end() {
    let chunks = run(&[b"hi\x01\x01"]);
    assert_eq!(bytes_of(&chunks, LogChannel::Stdout), b"hi\x01\x01".to_vec());
}

#[test]
fn text_bytes_are_scanned_like_binary() {
    // A marker inside what arrived as a text frame still switches channels.
    let mut input = b"log ".to_vec();
    input.extend_from_slice(&ERR);
    input.extend_from_slice(b"warn");
    let chunks = run(&[&input]);
    assert_eq!(bytes_of(&chunks, LogChannel::Stdout), b"log ".to_vec());
    assert_eq!(bytes_of(&chunks, LogChannel::Stderr), b"warn".to_vec());
}
