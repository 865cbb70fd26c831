//! Log-stream demultiplexer.
//!
//! A command's log stream interleaves standard output and standard error in
//! one byte stream. Two fixed three-byte markers select the channel for the
//! bytes that follow: `0x01 0x01 0x01` switches to stdout, `0x02 0x02 0x02`
//! to stderr. Before any marker the stream belongs to stdout. Markers are
//! consumed, never forwarded, and frames may cut a marker anywhere, so up to
//! two trailing bytes are carried from one frame to the next.
//!
//! The model is a greedy left-to-right scan of the whole stream: at each
//! position a complete marker switches the channel, any other byte is data of
//! the channel selected at that point. Scanning stops when fewer than three
//! bytes remain, since only later bytes can tell whether they start a marker;
//! at stream end those remaining bytes are data.

use vstd::prelude::*;

verus! {

/// The two logical output channels of a log stream.
#[derive(Clone, Copy, Debug, PartialEq, Eq, Structural)]
pub enum LogChannel {
    Stdout,
    Stderr,
}

/// One demultiplexed run of bytes, attributed to a channel.
#[derive(Clone, Debug)]
pub struct LogChunk {
    pub channel: LogChannel,
    pub data: Vec<u8>,
}

/// One event of the demultiplexed stream: a channel switch consumed from a
/// marker, or a data byte attributed to the channel selected at that point.
#[derive(Clone, Copy, Debug)]
pub enum LogEvent {
    Switch(LogChannel),
    Byte(LogChannel, u8),
}

/// The marker that switches the stream to stdout.
pub open spec fn stdout_marker() -> Seq<u8> {
    seq![1u8, 1u8, 1u8]
}

/// The marker that switches the stream to stderr.
pub open spec fn stderr_marker() -> Seq<u8> {
    seq![2u8, 2u8, 2u8]
}

/// Whether a complete stdout marker starts at position `i` of `s`.
pub open spec fn stdout_marker_at(s: Seq<u8>, i: int) -> bool {
    0 <= i && i + 3 <= s.len() && s[i] == 1u8 && s[i + 1] == 1u8 && s[i + 2] == 1u8
}

/// Whether a complete stderr marker starts at position `i` of `s`.
pub open spec fn stderr_marker_at(s: Seq<u8>, i: int) -> bool {
    0 <= i && i + 3 <= s.len() && s[i] == 2u8 && s[i + 1] == 2u8 && s[i + 2] == 2u8
}

/// Events of the greedy scan of `s`, starting on channel `c`. The scan stops
/// once fewer than three bytes remain; those bytes are not yet attributed.
pub open spec fn scan_events(s: Seq<u8>, c: LogChannel) -> Seq<LogEvent>
    decreases s.len(),
{
    if s.len() < 3 {
        Seq::empty()
    } else if stdout_marker_at(s, 0) {
        seq![LogEvent::Switch(LogChannel::Stdout)] + scan_events(s.skip(3), LogChannel::Stdout)
    } else if stderr_marker_at(s, 0) {
        seq![LogEvent::Switch(LogChannel::Stderr)] + scan_events(s.skip(3), LogChannel::Stderr)
    } else {
        seq![LogEvent::Byte(c, s[0])] + scan_events(s.skip(1), c)
    }
}

/// The unattributed bytes left when the greedy scan of `s` stops: fewer than
/// three, possibly the prefix of a marker completed by later input.
pub open spec fn scan_carry(s: Seq<u8>, c: LogChannel) -> Seq<u8>
    decreases s.len(),
{
    if s.len() < 3 {
        s
    } else if stdout_marker_at(s, 0) {
        scan_carry(s.skip(3), LogChannel::Stdout)
    } else if stderr_marker_at(s, 0) {
        scan_carry(s.skip(3), LogChannel::Stderr)
    } else {
        scan_carry(s.skip(1), c)
    }
}

/// The channel selected when the greedy scan of `s` stops.
pub open spec fn scan_channel(s: Seq<u8>, c: LogChannel) -> LogChannel
    decreases s.len(),
{
    if s.len() < 3 {
        c
    } else if stdout_marker_at(s, 0) {
        scan_channel(s.skip(3), LogChannel::Stdout)
    } else if stderr_marker_at(s, 0) {
        scan_channel(s.skip(3), LogChannel::Stderr)
    } else {
        scan_channel(s.skip(1), c)
    }
}

/// The bytes of `s` as data events of channel `c`.
pub open spec fn data_events(s: Seq<u8>, c: LogChannel) -> Seq<LogEvent> {
    Seq::new(s.len(), |i: int| LogEvent::Byte(c, s[i]))
}

/// All events of a complete stream that opened on stdout: what the greedy
/// scan yields, with the trailing carry flushed as data of the last selected
/// channel.
pub open spec fn stream_events(s: Seq<u8>) -> Seq<LogEvent> {
    scan_events(s, LogChannel::Stdout) + data_events(
        scan_carry(s, LogChannel::Stdout),
        scan_channel(s, LogChannel::Stdout),
    )
}

/// The byte string an event stands for in the original stream: a switch is
/// the marker that was consumed, a data byte is itself.
pub open spec fn event_bytes(e: LogEvent) -> Seq<u8> {
    match e {
        LogEvent::Switch(LogChannel::Stdout) => stdout_marker(),
        LogEvent::Switch(LogChannel::Stderr) => stderr_marker(),
        LogEvent::Byte(_, b) => seq![b],
    }
}

/// The stream rebuilt from events: every data byte in order, with each
/// consumed marker re-inserted at its switch point.
pub open spec fn rebuild(evts: Seq<LogEvent>) -> Seq<u8>
    decreases evts.len(),
{
    if evts.len() == 0 {
        Seq::empty()
    } else {
        event_bytes(evts[0]) + rebuild(evts.skip(1))
    }
}

/// Rebuilding distributes over concatenation of event sequences.
proof fn lemma_rebuild_add(a: Seq<LogEvent>, b: Seq<LogEvent>)
    ensures
        rebuild(a + b) == rebuild(a) + rebuild(b),
    decreases a.len(),
{
    if a.len() == 0 {
        assert(a + b =~= b);
        assert(rebuild(a) + rebuild(b) =~= rebuild(b));
    } else {
        assert((a + b).skip(1) =~= a.skip(1) + b);
        lemma_rebuild_add(a.skip(1), b);
        assert(rebuild(a + b) =~= rebuild(a) + rebuild(b));
    }
}

/// A single event rebuilds to the bytes it stands for.
proof fn lemma_rebuild_one(e: LogEvent)
    ensures
        rebuild(seq![e]) == event_bytes(e),
{
    assert(seq![e].skip(1) =~= Seq::<LogEvent>::empty());
    assert(rebuild(Seq::<LogEvent>::empty()) == Seq::<u8>::empty());
    assert(rebuild(seq![e]) =~= event_bytes(e));
}

/// Data events of a byte string rebuild to that byte string, whatever the
/// channel.
proof fn lemma_rebuild_data(s: Seq<u8>, c: LogChannel)
    ensures
        rebuild(data_events(s, c)) == s,
    decreases s.len(),
{
    if s.len() == 0 {
        assert(rebuild(data_events(s, c)) =~= s);
    } else {
        assert(data_events(s, c).skip(1) =~= data_events(s.skip(1), c));
        lemma_rebuild_data(s.skip(1), c);
        assert(rebuild(data_events(s, c)) =~= s);
    }
}

/// Law: demultiplexing loses nothing and invents nothing. Concatenating every
/// data byte in stream order, with each consumed marker re-inserted at the
/// point its channel switch happened, reproduces the input stream exactly.
pub proof fn lemma_stream_rebuild(s: Seq<u8>)
    ensures
        rebuild(stream_events(s)) == s,
{
    lemma_scan_rebuild(s, LogChannel::Stdout);
}

/// The scan's events followed by its carry rebuild to the scanned string.
proof fn lemma_scan_rebuild(s: Seq<u8>, c: LogChannel)
    ensures
        rebuild(scan_events(s, c) + data_events(scan_carry(s, c), scan_channel(s, c))) == s,
    decreases s.len(),
{
    let tail = data_events(scan_carry(s, c), scan_channel(s, c));
    if s.len() < 3 {
        assert(scan_events(s, c) + tail =~= tail);
        lemma_rebuild_data(s, c);
    } else if stdout_marker_at(s, 0) {
        let rest = s.skip(3);
        lemma_scan_rebuild(rest, LogChannel::Stdout);
        let rest_evts = scan_events(rest, LogChannel::Stdout) + data_events(
            scan_carry(rest, LogChannel::Stdout),
            scan_channel(rest, LogChannel::Stdout),
        );
        assert(scan_events(s, c) + tail =~= seq![
            LogEvent::Switch(LogChannel::Stdout),
        ] + rest_evts);
        lemma_rebuild_add(seq![LogEvent::Switch(LogChannel::Stdout)], rest_evts);
        lemma_rebuild_one(LogEvent::Switch(LogChannel::Stdout));
        assert(stdout_marker() + rest =~= s);
    } else if stderr_marker_at(s, 0) {
        let rest = s.skip(3);
        lemma_scan_rebuild(rest, LogChannel::Stderr);
        let rest_evts = scan_events(rest, LogChannel::Stderr) + data_events(
            scan_carry(rest, LogChannel::Stderr),
            scan_channel(rest, LogChannel::Stderr),
        );
        assert(scan_events(s, c) + tail =~= seq![
            LogEvent::Switch(LogChannel::Stderr),
        ] + rest_evts);
        lemma_rebuild_add(seq![LogEvent::Switch(LogChannel::Stderr)], rest_evts);
        lemma_rebuild_one(LogEvent::Switch(LogChannel::Stderr));
        assert(stderr_marker() + rest =~= s);
    } else {
        let rest = s.skip(1);
        lemma_scan_rebuild(rest, c);
        let rest_evts = scan_events(rest, c) + data_events(
            scan_carry(rest, c),
            scan_channel(rest, c),
        );
        assert(scan_events(s, c) + tail =~= seq![LogEvent::Byte(c, s[0])] + rest_evts);
        lemma_rebuild_add(seq![LogEvent::Byte(c, s[0])], rest_evts);
        lemma_rebuild_one(LogEvent::Byte(c, s[0]));
        assert(seq![s[0]] + rest =~= s);
    }
}

/// Law: frame boundaries do not matter. The greedy scan of `s` stops with
/// fewer than three bytes in hand, and scanning those bytes joined with any
/// later input `t` continues exactly where the scan of `s` left off. In
/// particular a marker cut by a frame boundary is recognized exactly as if it
/// had arrived whole.
pub proof fn lemma_scan_append(s: Seq<u8>, t: Seq<u8>, c: LogChannel)
    ensures
        scan_events(s + t, c) == scan_events(s, c) + scan_events(
            scan_carry(s, c) + t,
            scan_channel(s, c),
        ),
        scan_carry(s + t, c) == scan_carry(scan_carry(s, c) + t, scan_channel(s, c)),
        scan_channel(s + t, c) == scan_channel(scan_carry(s, c) + t, scan_channel(s, c)),
    decreases s.len(),
{
    if s.len() < 3 {
        assert(scan_carry(s, c) + t =~= s + t);
        assert(scan_events(s, c) + scan_events(s + t, c) =~= scan_events(s + t, c));
    } else if stdout_marker_at(s, 0) {
        assert(stdout_marker_at(s + t, 0));
        assert((s + t).skip(3) =~= s.skip(3) + t);
        lemma_scan_append(s.skip(3), t, LogChannel::Stdout);
        assert(scan_events(s, c) + scan_events(scan_carry(s, c) + t, scan_channel(s, c)) =~= seq![
            LogEvent::Switch(LogChannel::Stdout),
        ] + (scan_events(s.skip(3), LogChannel::Stdout) + scan_events(
            scan_carry(s.skip(3), LogChannel::Stdout) + t,
            scan_channel(s.skip(3), LogChannel::Stdout),
        )));
    } else if stderr_marker_at(s, 0) {
        assert(stderr_marker_at(s + t, 0));
        assert((s + t).skip(3) =~= s.skip(3) + t);
        lemma_scan_append(s.skip(3), t, LogChannel::Stderr);
        assert(scan_events(s, c) + scan_events(scan_carry(s, c) + t, scan_channel(s, c)) =~= seq![
            LogEvent::Switch(LogChannel::Stderr),
        ] + (scan_events(s.skip(3), LogChannel::Stderr) + scan_events(
            scan_carry(s.skip(3), LogChannel::Stderr) + t,
            scan_channel(s.skip(3), LogChannel::Stderr),
        )));
    } else {
        assert(!stdout_marker_at(s + t, 0) && !stderr_marker_at(s + t, 0));
        assert((s + t)[0] == s[0]);
        assert((s + t).skip(1) =~= s.skip(1) + t);
        lemma_scan_append(s.skip(1), t, c);
        assert(scan_events(s, c) + scan_events(scan_carry(s, c) + t, scan_channel(s, c)) =~= seq![
            LogEvent::Byte(c, s[0]),
        ] + (scan_events(s.skip(1), c) + scan_events(
            scan_carry(s.skip(1), c) + t,
            scan_channel(s.skip(1), c),
        )));
    }
}

/// The data events of an event sequence, with the switches dropped.
pub open spec fn data_only(evts: Seq<LogEvent>) -> Seq<LogEvent>
    decreases evts.len(),
{
    if evts.len() == 0 {
        Seq::empty()
    } else if evts[0] is Byte {
        seq![evts[0]] + data_only(evts.skip(1))
    } else {
        data_only(evts.skip(1))
    }
}

/// Dropping switches distributes over concatenation.
proof fn lemma_data_only_add(a: Seq<LogEvent>, b: Seq<LogEvent>)
    ensures
        data_only(a + b) == data_only(a) + data_only(b),
    decreases a.len(),
{
    if a.len() == 0 {
        assert(a + b =~= b);
        assert(data_only(a) + data_only(b) =~= data_only(b));
    } else {
        assert((a + b).skip(1) =~= a.skip(1) + b);
        lemma_data_only_add(a.skip(1), b);
        assert(data_only(a + b) =~= data_only(a) + data_only(b));
    }
}

/// A switch at the head contributes no data events.
proof fn lemma_data_only_switch(c: LogChannel, rest: Seq<LogEvent>)
    ensures
        data_only(seq![LogEvent::Switch(c)] + rest) == data_only(rest),
{
    lemma_data_only_add(seq![LogEvent::Switch(c)], rest);
    assert(seq![LogEvent::Switch(c)].skip(1) =~= Seq::<LogEvent>::empty());
    assert(data_only(Seq::<LogEvent>::empty()) == Seq::<LogEvent>::empty());
    assert(data_only(seq![LogEvent::Switch(c)]) =~= Seq::<LogEvent>::empty());
}

/// A data byte at the head is kept.
proof fn lemma_data_only_byte(c: LogChannel, b: u8, rest: Seq<LogEvent>)
    ensures
        data_only(seq![LogEvent::Byte(c, b)] + rest) == seq![LogEvent::Byte(c, b)] + data_only(
            rest,
        ),
{
    lemma_data_only_add(seq![LogEvent::Byte(c, b)], rest);
    assert(seq![LogEvent::Byte(c, b)].skip(1) =~= Seq::<LogEvent>::empty());
    assert(data_only(Seq::<LogEvent>::empty()) == Seq::<LogEvent>::empty());
    assert(data_only(seq![LogEvent::Byte(c, b)]) =~= seq![LogEvent::Byte(c, b)]);
}

/// Pure data events pass through unchanged.
proof fn lemma_data_only_data_events(s: Seq<u8>, c: LogChannel)
    ensures
        data_only(data_events(s, c)) == data_events(s, c),
    decreases s.len(),
{
    if s.len() == 0 {
        assert(data_only(data_events(s, c)) =~= data_events(s, c));
    } else {
        assert(data_events(s, c).skip(1) =~= data_events(s.skip(1), c));
        lemma_data_only_data_events(s.skip(1), c);
        assert(data_only(data_events(s, c)) =~= data_events(s, c));
    }
}

/// The data events a list of chunks delivers, in order.
pub open spec fn chunks_events(chunks: Seq<LogChunk>) -> Seq<LogEvent>
    decreases chunks.len(),
{
    if chunks.len() == 0 {
        Seq::empty()
    } else {
        data_events(chunks[0].data@, chunks[0].channel) + chunks_events(chunks.skip(1))
    }
}

/// Appending a chunk appends its data events.
proof fn lemma_chunks_events_push(chunks: Seq<LogChunk>, chunk: LogChunk)
    ensures
        chunks_events(chunks.push(chunk)) == chunks_events(chunks) + data_events(
            chunk.data@,
            chunk.channel,
        ),
    decreases chunks.len(),
{
    if chunks.len() == 0 {
        assert(chunks.push(chunk).skip(1) =~= Seq::<LogChunk>::empty());
        assert(chunks_events(Seq::<LogChunk>::empty()) == Seq::<LogEvent>::empty());
        assert(chunks_events(chunks.push(chunk)) =~= chunks_events(chunks) + data_events(
            chunk.data@,
            chunk.channel,
        ));
    } else {
        assert(chunks.push(chunk).skip(1) =~= chunks.skip(1).push(chunk));
        lemma_chunks_events_push(chunks.skip(1), chunk);
        assert(chunks_events(chunks.push(chunk)) =~= chunks_events(chunks) + data_events(
            chunk.data@,
            chunk.channel,
        ));
    }
}

/// A copy of `v[from..to]`.
fn sub_vec(v: &Vec<u8>, from: usize, to: usize) -> (r: Vec<u8>)
    requires
        from <= to <= v@.len(),
    ensures
        r@ == v@.subrange(from as int, to as int),
{
    let mut r: Vec<u8> = Vec::new();
    let mut i: usize = from;
    while i < to
        invariant
            from <= i <= to <= v@.len(),
            r@ == v@.subrange(from as int, i as int),
        decreases to - i,
    {
        r.push(v[i]);
        i = i + 1;
        assert(r@ =~= v@.subrange(from as int, i as int));
    }
    r
}

/// The streaming demultiplexer: the channel currently selected and the few
/// trailing bytes not yet attributed, carried to the next frame.
pub struct LogDemux {
    current: LogChannel,
    carry: Vec<u8>,
    hist: Ghost<Seq<u8>>,
}

impl LogDemux {
    /// All bytes fed so far.
    pub closed spec fn hist(self) -> Seq<u8> {
        self.hist@
    }

    /// The machine's state is exactly where the greedy scan of the bytes fed
    /// so far stops.
    pub closed spec fn wf(self) -> bool {
        self.carry@ == scan_carry(self.hist@, LogChannel::Stdout) && self.current == scan_channel(
            self.hist@,
            LogChannel::Stdout,
        )
    }

    /// A fresh demultiplexer: nothing fed, stdout selected.
    pub fn new() -> (r: LogDemux)
        ensures
            r.wf(),
            r.hist() == Seq::<u8>::empty(),
    {
        let r = LogDemux {
            current: LogChannel::Stdout,
            carry: Vec::new(),
            hist: Ghost(Seq::empty()),
        };
        proof {
            assert(scan_carry(Seq::<u8>::empty(), LogChannel::Stdout) =~= Seq::<u8>::empty());
        }
        r
    }

    /// Feed one inbound frame. Returns the runs of bytes the scan can already
    /// attribute, in stream order; markers are consumed and never returned,
    /// and no returned chunk is empty. The data events of the history's scan
    /// grow by exactly the returned chunks' events.
    pub fn feed(&mut self, frame: &[u8]) -> (out: Vec<LogChunk>)
        requires
            old(self).wf(),
        ensures
            final(self).wf(),
            final(self).hist() == old(self).hist() + frame@,
            data_only(scan_events(final(self).hist(), LogChannel::Stdout)) == data_only(
                scan_events(old(self).hist(), LogChannel::Stdout),
            ) + chunks_events(out@),
            forall|i: int| 0 <= i < out@.len() ==> #[trigger] out@[i].data@.len() > 0,
    {
        let ghost old_hist = self.hist@;
        let c0 = self.current;
        let mut buffer: Vec<u8> = Vec::new();
        let mut i: usize = 0;
        while i < self.carry.len()
            invariant
                i <= self.carry@.len(),
                buffer@ == self.carry@.subrange(0, i as int),
            decreases self.carry@.len() - i,
        {
            buffer.push(self.carry[i]);
            i = i + 1;
            assert(buffer@ =~= self.carry@.subrange(0, i as int));
        }
        assert(buffer@ =~= self.carry@);
        let mut j: usize = 0;
        while j < frame.len()
            invariant
                j <= frame@.len(),
                buffer@ == self.carry@ + frame@.subrange(0, j as int),
            decreases frame@.len() - j,
        {
            buffer.push(frame[j]);
            j = j + 1;
            assert(buffer@ =~= self.carry@ + frame@.subrange(0, j as int));
        }
        assert(buffer@ =~= self.carry@ + frame@);
        let ghost buf = buffer@;

        let mut out: Vec<LogChunk> = Vec::new();
        let mut cur = c0;
        let mut start: usize = 0;
        let mut pos: usize = 0;
        proof {
            assert(buf.skip(0) =~= buf);
            assert(data_events(buf.subrange(0, 0), cur) =~= Seq::<LogEvent>::empty());
        }
        while buffer.len() >= 3 && pos <= buffer.len() - 3
            invariant
                start <= pos <= buffer@.len(),
                buffer@ == buf,
                data_only(scan_events(buf, c0)) == chunks_events(out@) + data_events(
                    buf.subrange(start as int, pos as int),
                    cur,
                ) + data_only(scan_events(buf.skip(pos as int), cur)),
                scan_carry(buf, c0) == scan_carry(buf.skip(pos as int), cur),
                scan_channel(buf, c0) == scan_channel(buf.skip(pos as int), cur),
                forall|k: int| 0 <= k < out@.len() ==> #[trigger] out@[k].data@.len() > 0,
            decreases buffer@.len() - pos,
        {
            let ghost rest = buf.skip(pos as int);
            proof {
                assert(rest.len() >= 3);
                assert(rest[0] == buf[pos as int]);
                assert(rest[1] == buf[pos as int + 1]);
                assert(rest[2] == buf[pos as int + 2]);
            }
            let b0 = buffer[pos];
            let b1 = buffer[pos + 1];
            let b2 = buffer[pos + 2];
            if b0 == 1u8 && b1 == 1u8 && b2 == 1u8 {
                proof {
                    assert(stdout_marker_at(rest, 0));
                }
                if start < pos {
                    let chunk = LogChunk { channel: cur, data: sub_vec(&buffer, start, pos) };
                    proof {
                        lemma_chunks_events_push(out@, chunk);
                    }
                    out.push(chunk);
                }
                proof {
                    assert(rest.skip(3) =~= buf.skip(pos as int + 3));
                    lemma_data_only_switch(
                        LogChannel::Stdout,
                        scan_events(rest.skip(3), LogChannel::Stdout),
                    );
                    assert(data_events(buf.subrange(pos as int + 3, pos as int + 3), LogChannel::Stdout)
                        =~= Seq::<LogEvent>::empty());
                    if start < pos {
                    } else {
                        assert(data_events(buf.subrange(start as int, pos as int), cur)
                            =~= Seq::<LogEvent>::empty());
                    }
                    assert(data_only(scan_events(buf, c0)) =~= chunks_events(out@) + data_events(
                        buf.subrange(pos as int + 3, pos as int + 3),
                        LogChannel::Stdout,
                    ) + data_only(scan_events(buf.skip(pos as int + 3), LogChannel::Stdout)));
                }
                cur = LogChannel::Stdout;
                pos = pos + 3;
                start = pos;
            } else if b0 == 2u8 && b1 == 2u8 && b2 == 2u8 {
                proof {
                    assert(stderr_marker_at(rest, 0));
                    assert(!stdout_marker_at(rest, 0));
                }
                if start < pos {
                    let chunk = LogChunk { channel: cur, data: sub_vec(&buffer, start, pos) };
                    proof {
                        lemma_chunks_events_push(out@, chunk);
                    }
                    out.push(chunk);
                }
                proof {
                    assert(rest.skip(3) =~= buf.skip(pos as int + 3));
                    lemma_data_only_switch(
                        LogChannel::Stderr,
                        scan_events(rest.skip(3), LogChannel::Stderr),
                    );
                    assert(data_events(buf.subrange(pos as int + 3, pos as int + 3), LogChannel::Stderr)
                        =~= Seq::<LogEvent>::empty());
                    if start < pos {
                    } else {
                        assert(data_events(buf.subrange(start as int, pos as int), cur)
                            =~= Seq::<LogEvent>::empty());
                    }
                    assert(data_only(scan_events(buf, c0)) =~= chunks_events(out@) + data_events(
                        buf.subrange(pos as int + 3, pos as int + 3),
                        LogChannel::Stderr,
                    ) + data_only(scan_events(buf.skip(pos as int + 3), LogChannel::Stderr)));
                }
                cur = LogChannel::Stderr;
                pos = pos + 3;
                start = pos;
            } else {
                proof {
                    assert(!stdout_marker_at(rest, 0));
                    assert(!stderr_marker_at(rest, 0));
                    assert(rest.skip(1) =~= buf.skip(pos as int + 1));
                    lemma_data_only_byte(cur, b0, scan_events(rest.skip(1), cur));
                    assert(data_events(buf.subrange(start as int, pos as int + 1), cur)
                        =~= data_events(buf.subrange(start as int, pos as int), cur) + seq![
                        LogEvent::Byte(cur, b0),
                    ]);
                    assert(data_only(scan_events(buf, c0)) =~= chunks_events(out@) + data_events(
                        buf.subrange(start as int, pos as int + 1),
                        cur,
                    ) + data_only(scan_events(buf.skip(pos as int + 1), cur)));
                }
                pos = pos + 1;
            }
        }
        let ghost rest = buf.skip(pos as int);
        proof {
            assert(rest.len() < 3);
            assert(scan_events(rest, cur) == Seq::<LogEvent>::empty());
            assert(data_only(Seq::<LogEvent>::empty()) == Seq::<LogEvent>::empty());
        }
        if start < pos {
            let chunk = LogChunk { channel: cur, data: sub_vec(&buffer, start, pos) };
            proof {
                lemma_chunks_events_push(out@, chunk);
            }
            out.push(chunk);
        }
        proof {
            if start == pos {
                assert(data_events(buf.subrange(start as int, pos as int), cur)
                    =~= Seq::<LogEvent>::empty());
            }
            assert(data_only(scan_events(buf, c0)) =~= chunks_events(out@));
        }
        self.carry = sub_vec(&buffer, pos, buffer.len());
        self.current = cur;
        proof {
            assert(self.carry@ =~= rest);
            self.hist@ = old_hist + frame@;
            lemma_scan_append(old_hist, frame@, LogChannel::Stdout);
            lemma_data_only_add(
                scan_events(old_hist, LogChannel::Stdout),
                scan_events(buf, c0),
            );
        }
        out
    }

    /// End of stream: whatever bytes are still carried become data of the
    /// channel selected last. Returns them as one final chunk, or `None` when
    /// nothing is carried; no empty chunk is ever produced.
    pub fn finish(self) -> (r: Option<LogChunk>)
        requires
            self.wf(),
        ensures
            match r {
                Some(chunk) => chunk.data@.len() > 0 && data_only(stream_events(self.hist()))
                    == data_only(scan_events(self.hist(), LogChannel::Stdout)) + data_events(
                    chunk.data@,
                    chunk.channel,
                ),
                None => data_only(stream_events(self.hist())) == data_only(
                    scan_events(self.hist(), LogChannel::Stdout),
                ),
            },
    {
        proof {
            lemma_data_only_add(
                scan_events(self.hist@, LogChannel::Stdout),
                data_events(
                    scan_carry(self.hist@, LogChannel::Stdout),
                    scan_channel(self.hist@, LogChannel::Stdout),
                ),
            );
            lemma_data_only_data_events(
                scan_carry(self.hist@, LogChannel::Stdout),
                scan_channel(self.hist@, LogChannel::Stdout),
            );
        }
        if self.carry.len() > 0 {
            Some(LogChunk { channel: self.current, data: self.carry })
        } else {
            proof {
                assert(data_events(scan_carry(self.hist@, LogChannel::Stdout), scan_channel(self.hist@, LogChannel::Stdout))
                    =~= Seq::<LogEvent>::empty());
                assert(data_only(scan_events(self.hist@, LogChannel::Stdout)) + Seq::<LogEvent>::empty()
                    =~= data_only(scan_events(self.hist@, LogChannel::Stdout)));
            }
            None
        }
    }
}


/// The bytes an event sequence attributes to channel `c`, in order.
pub open spec fn channel_bytes(evts: Seq<LogEvent>, c: LogChannel) -> Seq<u8>
    decreases evts.len(),
{
    if evts.len() == 0 {
        Seq::empty()
    } else {
        let rest = channel_bytes(evts.skip(1), c);
        match evts[0] {
            LogEvent::Byte(c2, b) => if c2 == c {
                seq![b] + rest
            } else {
                rest
            },
            LogEvent::Switch(_) => rest,
        }
    }
}

/// What data events of one channel contribute to each channel's bytes.
proof fn lemma_channel_bytes_data(s: Seq<u8>, c: LogChannel, d: LogChannel)
    ensures
        channel_bytes(data_events(s, c), d) == if c == d {
            s
        } else {
            Seq::<u8>::empty()
        },
    decreases s.len(),
{
    if s.len() == 0 {
        assert(channel_bytes(data_events(s, c), d) =~= Seq::<u8>::empty());
        if c == d {
            assert(channel_bytes(data_events(s, c), d) =~= s);
        }
    } else {
        assert(data_events(s, c).skip(1) =~= data_events(s.skip(1), c));
        lemma_channel_bytes_data(s.skip(1), c, d);
        if c == d {
            assert(channel_bytes(data_events(s, c), d) =~= s);
        } else {
            assert(channel_bytes(data_events(s, c), d) =~= Seq::<u8>::empty());
        }
    }
}

/// With no marker anywhere in `s`, the scan attributes nothing and carries
/// everything forward as data of the starting channel.
proof fn lemma_no_marker_scan(s: Seq<u8>, c: LogChannel)
    requires
        forall|i: int| !stdout_marker_at(s, i) && !stderr_marker_at(s, i),
    ensures
        scan_events(s, c) + data_events(scan_carry(s, c), scan_channel(s, c)) == data_events(s, c),
        scan_channel(s, c) == c,
    decreases s.len(),
{
    if s.len() < 3 {
        assert(scan_events(s, c) + data_events(scan_carry(s, c), scan_channel(s, c))
            =~= data_events(s, c));
    } else {
        assert(!stdout_marker_at(s, 0) && !stderr_marker_at(s, 0));
        let rest = s.skip(1);
        assert forall|i: int| !stdout_marker_at(rest, i) && !stderr_marker_at(rest, i) by {
            if 0 <= i && i + 3 <= rest.len() {
                assert(rest[i] == s[i + 1]);
                assert(rest[i + 1] == s[i + 2]);
                assert(rest[i + 2] == s[i + 3]);
                assert(!stdout_marker_at(s, i + 1) && !stderr_marker_at(s, i + 1));
            }
        }
        lemma_no_marker_scan(rest, c);
        assert(scan_events(s, c) + data_events(scan_carry(s, c), scan_channel(s, c)) =~= seq![
            LogEvent::Byte(c, s[0]),
        ] + (scan_events(rest, c) + data_events(scan_carry(rest, c), scan_channel(rest, c))));
        assert(seq![LogEvent::Byte(c, s[0])] + data_events(rest, c) =~= data_events(s, c));
    }
}

/// Law: a stream with no marker anywhere belongs to stdout whole. Stdout
/// receives exactly the input bytes, stderr receives nothing.
pub proof fn lemma_no_marker_all_stdout(s: Seq<u8>)
    requires
        forall|i: int| !stdout_marker_at(s, i) && !stderr_marker_at(s, i),
    ensures
        channel_bytes(stream_events(s), LogChannel::Stdout) == s,
        channel_bytes(stream_events(s), LogChannel::Stderr) == Seq::<u8>::empty(),
{
    lemma_no_marker_scan(s, LogChannel::Stdout);
    lemma_channel_bytes_data(s, LogChannel::Stdout, LogChannel::Stdout);
    lemma_channel_bytes_data(s, LogChannel::Stdout, LogChannel::Stderr);
}

} // verus!
