//! Per-connection session decisions.
//!
//! One bidirectional control stream carries the Hello/Welcome handshake,
//! input events and Ping/Pong. Each frame travels on its own
//! unidirectional stream as a 54-byte frame header and its (possibly
//! compressed) payload.

use vstd::prelude::*;

use crate::clock::{duration_nanos, since_unix_epoch, system_time_now};
use crate::protocol::codec::{
    decode_message, lemma_message_prefix_fails, decode_varint, encode_frame_header, lemma_decode_varint_len, lemma_message_roundtrip,
    lemma_varint_roundtrip, message_strings_fit, spec_decode_message, spec_decode_varint, spec_encode_frame_header,
    spec_encode_message, spec_encode_varint, spec_message_payload, Cursor, DecodeError,
};
use crate::protocol::compress::{
    compress, compression_byte, lz4_block_compressed, lz4_block_decompressed, lz4_compressible_len, lz4_decodable,
    Compression,
    LZ4_ROUNDTRIP_LIMIT,
};
use crate::protocol::message::{FrameHeader, Message, MessageV, WindowEventKind, WindowEventKindV, FORMAT_BGRA8, FRAME_MAGIC};
use crate::server::bridge::{events_view, CompositorCommand, NetCommand, NetCommandV};
use crate::server::net::PROTOCOL_VERSION;
use crate::server::rendering::{FrameBuffer, FrameBufferV};

verus! {

/// Maximum size of one framed control message (varint length + payload).
pub const MAX_MESSAGE_BYTES: usize = 32768usize;

/// Interval between server-initiated pings, in milliseconds.
pub const PING_INTERVAL_MS: u64 = 500u64;

/// How long the client has to open its control stream, in seconds.
pub const CONTROL_STREAM_TIMEOUT_SECS: u64 = 10u64;

/// A clock reading in whole nanoseconds as a `u64` (truncated), or 0 for
/// a clock before the epoch.
pub fn nanos_to_u64(nanos: Option<u128>) -> (r: u64)
    ensures
        r == (match nanos {
            Some(n) => n as u64,
            None => 0u64,
        }),
{
    match nanos {
        Some(n) => n as u64,
        None => 0,
    }
}

/// Nanoseconds since the UNIX epoch (for Ping timestamps); 0 if the clock
/// reads earlier than the epoch.
pub fn now_ns() -> u64 {
    let now = system_time_now();
    let since = since_unix_epoch(&now);
    let nanos = match since {
        Some(d) => Some(duration_nanos(&d)),
        None => None,
    };
    nanos_to_u64(nanos)
}

/// What reading the buffered control-stream bytes yields.
#[derive(Debug)]
pub enum ReadStep {
    /// A whole frame was buffered and taken: its decoded message, or the
    /// error decoding it gave.
    Ready(Result<Message, DecodeError>),
    /// More bytes are needed before a frame is complete.
    NeedMore,
    /// The frame announces a payload longer than `MAX_MESSAGE_BYTES`.
    Oversized { len: u64 },
    /// The length prefix itself is malformed.
    Malformed(DecodeError),
}

/// The outcome of reading the buffered bytes `p`, and the bytes left
/// buffered afterwards.
pub open spec fn read_outcome(p: Seq<u8>) -> (ReadOutcome, Seq<u8>) {
    match spec_decode_varint(p) {
        Ok((len, n)) => if len <= MAX_MESSAGE_BYTES {
            if p.len() >= n + len {
                (
                    ReadOutcome::Ready(
                        match spec_decode_message(p.take(n + len)) {
                            Ok((m, _)) => Ok(m),
                            Err(e) => Err(e),
                        },
                    ),
                    p.skip(n + len),
                )
            } else {
                (ReadOutcome::NeedMore, p)
            }
        } else {
            (ReadOutcome::Oversized { len }, p)
        },
        Err(DecodeError::UnexpectedEof) => (ReadOutcome::NeedMore, p),
        Err(e) => (ReadOutcome::Malformed(e), p),
    }
}

/// Mathematical value of a [`ReadStep`].
pub enum ReadOutcome {
    Ready(Result<MessageV, DecodeError>),
    NeedMore,
    Oversized { len: u64 },
    Malformed(DecodeError),
}

impl View for ReadStep {
    type V = ReadOutcome;

    open spec fn view(&self) -> ReadOutcome {
        match self {
            ReadStep::Ready(r) => ReadOutcome::Ready(
                match r {
                    Ok(m) => Ok(m@),
                    Err(e) => Err(*e),
                },
            ),
            ReadStep::NeedMore => ReadOutcome::NeedMore,
            ReadStep::Oversized { len } => ReadOutcome::Oversized { len: *len },
            ReadStep::Malformed(e) => ReadOutcome::Malformed(*e),
        }
    }
}

/// Buffers control-stream bytes and takes framed messages off the front,
/// keeping pipelined bytes that spill past a message.
#[derive(Debug)]
pub struct MessageReader {
    pending: Vec<u8>,
}

impl MessageReader {
    /// The bytes received but not yet taken.
    pub closed spec fn buffered(self) -> Seq<u8> {
        self.pending@
    }

    /// An empty reader.
    pub fn new() -> (r: Self)
        ensures
            r.buffered() == Seq::<u8>::empty(),
    {
        Self { pending: Vec::new() }
    }

    /// Buffer bytes read from the stream.
    pub fn feed(&mut self, bytes: &[u8])
        ensures
            final(self).buffered() == old(self).buffered() + bytes@,
    {
        let mut i: usize = 0;
        while i < bytes.len()
            invariant
                i <= bytes@.len(),
                self.pending@ == old(self).pending@ + bytes@.take(i as int),
            decreases bytes@.len() - i,
        {
            self.pending.push(bytes[i]);
            i = i + 1;
            assert(self.pending@ =~= old(self).pending@ + bytes@.take(i as int));
        }
        assert(bytes@.take(i as int) =~= bytes@);
    }

    /// Try to take the next framed message from the buffered bytes. A
    /// complete frame is removed and decoded; otherwise the buffer is kept.
    pub fn poll(&mut self) -> (step: ReadStep)
        ensures
            step@ == read_outcome(old(self).buffered()).0,
            final(self).buffered() == read_outcome(old(self).buffered()).1,
    {
        let ghost p = self.pending@;
        let (res, n) = {
            let mut cursor = Cursor::new(self.pending.as_slice());
            assert(cursor.rest() =~= p);
            let res = decode_varint(&mut cursor);
            (res, cursor.position())
        };
        match res {
            Ok(len) => {
                proof {
                    lemma_decode_varint_len(p);
                }
                if len <= MAX_MESSAGE_BYTES as u64 {
                    let total = n + len as usize;
                    if self.pending.len() >= total {
                        let frame = take_front(&mut self.pending, total);
                        let mut fc = Cursor::new(frame.as_slice());
                        proof {
                            assert(fc.rest() =~= p.take(total as int));
                        }
                        let msg = decode_message(&mut fc);
                        ReadStep::Ready(msg)
                    } else {
                        ReadStep::NeedMore
                    }
                } else {
                    ReadStep::Oversized { len }
                }
            },
            Err(DecodeError::UnexpectedEof) => ReadStep::NeedMore,
            Err(e) => ReadStep::Malformed(e),
        }
    }
}

/// Remove and return the first `n` bytes of `v`.
fn take_front(v: &mut Vec<u8>, n: usize) -> (front: Vec<u8>)
    requires
        n <= old(v)@.len(),
    ensures
        front@ == old(v)@.take(n as int),
        final(v)@ == old(v)@.skip(n as int),
{
    let mut front = v.split_off(n);
    std::mem::swap(v, &mut front);
    front
}

/// A written message whose payload is at most 32 KiB is read back whole
/// from the buffered bytes, and whatever was pipelined after it stays
/// buffered.
pub proof fn lemma_reader_reads_written_message(m: MessageV, rest: Seq<u8>)
    requires
        message_strings_fit(m),
        spec_message_payload(m).len() <= MAX_MESSAGE_BYTES,
    ensures
        read_outcome(spec_encode_message(m) + rest) == (ReadOutcome::Ready(Ok::<MessageV, DecodeError>(m)), rest),
{
    let p = spec_message_payload(m);
    let v = spec_encode_varint(p.len() as u64);
    let enc = spec_encode_message(m);
    let s = enc + rest;
    assert(s =~= v + (p + rest));
    lemma_varint_roundtrip(p.len() as u64, p + rest);
    let total = v.len() + p.len();
    assert(enc.len() == total);
    assert(s.take(total as int) =~= enc + Seq::<u8>::empty());
    lemma_message_roundtrip(m, Seq::<u8>::empty());
    assert(s.skip(total as int) =~= rest);
}

/// A buffer holding only part of a message's encoding is left waiting: the
/// reader asks for more bytes and keeps what it has.
pub proof fn lemma_reader_waits_for_whole_message(m: MessageV, k: int)
    requires
        message_strings_fit(m),
        spec_message_payload(m).len() <= MAX_MESSAGE_BYTES,
        0 <= k < spec_encode_message(m).len(),
    ensures
        read_outcome(spec_encode_message(m).take(k)) == (ReadOutcome::NeedMore, spec_encode_message(m).take(k)),
{
    lemma_message_prefix_fails(m, k);
}

/// The bytes of `ms`' encodings, one after another.
pub open spec fn encode_all(ms: Seq<MessageV>) -> Seq<u8>
    decreases ms.len(),
{
    if ms.len() == 0 {
        Seq::empty()
    } else {
        spec_encode_message(ms[0]) + encode_all(ms.skip(1))
    }
}

/// What `n` successive polls of a reader holding `p` yield, and what it
/// holds afterwards.
pub open spec fn poll_n(p: Seq<u8>, n: nat) -> (Seq<ReadOutcome>, Seq<u8>)
    decreases n,
{
    if n == 0 {
        (Seq::empty(), p)
    } else {
        let first = read_outcome(p);
        let later = poll_n(first.1, (n - 1) as nat);
        (seq![first.0] + later.0, later.1)
    }
}

/// Pipelined messages come out of the reader one poll each, in the order
/// they were written, and the bytes after them stay buffered. Since
/// feeding only appends what arrives, this holds however the bytes were
/// split into reads; a poll before a message is whole waits (see
/// [`lemma_reader_waits_for_whole_message`]).
pub proof fn lemma_reader_reads_messages_in_order(ms: Seq<MessageV>, rest: Seq<u8>)
    requires
        forall|i: int|
            0 <= i < ms.len() ==> message_strings_fit(#[trigger] ms[i]) && spec_message_payload(ms[i]).len()
                <= MAX_MESSAGE_BYTES,
    ensures
        poll_n(encode_all(ms) + rest, ms.len()) == (
            ms.map_values(|m: MessageV| ReadOutcome::Ready(Ok::<MessageV, DecodeError>(m))),
            rest,
        ),
    decreases ms.len(),
{
    if ms.len() == 0 {
        assert(encode_all(ms) + rest =~= rest);
        assert(ms.map_values(|m: MessageV| ReadOutcome::Ready(Ok::<MessageV, DecodeError>(m)))
            =~= Seq::<ReadOutcome>::empty());
    } else {
        let tail = ms.skip(1);
        let after = encode_all(tail) + rest;
        assert(encode_all(ms) + rest =~= spec_encode_message(ms[0]) + after);
        lemma_reader_reads_written_message(ms[0], after);
        assert forall|i: int| 0 <= i < tail.len() implies message_strings_fit(#[trigger] tail[i])
            && spec_message_payload(tail[i]).len() <= MAX_MESSAGE_BYTES by {
            assert(tail[i] == ms[i + 1]);
        }
        lemma_reader_reads_messages_in_order(tail, rest);
        assert(seq![ReadOutcome::Ready(Ok::<MessageV, DecodeError>(ms[0]))]
            + tail.map_values(|m: MessageV| ReadOutcome::Ready(Ok::<MessageV, DecodeError>(m)))
            =~= ms.map_values(|m: MessageV| ReadOutcome::Ready(Ok::<MessageV, DecodeError>(m))));
    }
}

/// Every message of `ms` can be written and read back within the
/// control-stream limits.
pub open spec fn all_fit(ms: Seq<MessageV>) -> bool {
    forall|i: int|
        0 <= i < ms.len() ==> message_strings_fit(#[trigger] ms[i]) && spec_message_payload(ms[i]).len()
            <= MAX_MESSAGE_BYTES
}

/// A successful read of each message of `ms`, in order.
pub open spec fn ready_all(ms: Seq<MessageV>) -> Seq<ReadOutcome> {
    ms.map_values(|m: MessageV| ReadOutcome::Ready(Ok::<MessageV, DecodeError>(m)))
}

/// Polling a reader holding `p` until a poll takes no whole message: the
/// outcomes of the polls that did, and the bytes left.
pub open spec fn drain(p: Seq<u8>) -> (Seq<ReadOutcome>, Seq<u8>)
    decreases p.len(),
{
    let first = read_outcome(p);
    if first.0 is Ready && first.1.len() < p.len() {
        let later = drain(first.1);
        (seq![first.0] + later.0, later.1)
    } else {
        (Seq::empty(), p)
    }
}

/// A reader holding `p` that is fed `chunks` one after another, draining
/// after each: the messages it yields, and the bytes left.
pub open spec fn feed_and_drain(p: Seq<u8>, chunks: Seq<Seq<u8>>) -> (Seq<ReadOutcome>, Seq<u8>)
    decreases chunks.len(),
{
    if chunks.len() == 0 {
        (Seq::empty(), p)
    } else {
        let now = drain(p + chunks[0]);
        let later = feed_and_drain(now.1, chunks.skip(1));
        (now.0 + later.0, later.1)
    }
}

proof fn lemma_all_fit_sub(ms: Seq<MessageV>, a: int, b: int)
    requires
        all_fit(ms),
        0 <= a <= b <= ms.len(),
    ensures
        all_fit(ms.subrange(a, b)),
{
    assert forall|i: int| 0 <= i < ms.subrange(a, b).len() implies message_strings_fit(
        #[trigger] ms.subrange(a, b)[i],
    ) && spec_message_payload(ms.subrange(a, b)[i]).len() <= MAX_MESSAGE_BYTES by {
        assert(ms.subrange(a, b)[i] == ms[a + i]);
    }
}

proof fn lemma_encode_all_split(ms: Seq<MessageV>, j: int)
    requires
        0 <= j <= ms.len(),
    ensures
        encode_all(ms) == encode_all(ms.take(j)) + encode_all(ms.skip(j)),
    decreases ms.len(),
{
    if j == 0 {
        assert(ms.take(0) =~= Seq::<MessageV>::empty());
        assert(ms.skip(0) =~= ms);
        assert(encode_all(ms.take(0)) + encode_all(ms) =~= encode_all(ms));
    } else {
        let t = ms.skip(1);
        lemma_encode_all_split(t, j - 1);
        assert(ms.take(j).skip(1) =~= t.take(j - 1));
        assert(t.skip(j - 1) =~= ms.skip(j));
        assert(ms.take(j)[0] == ms[0]);
        assert(encode_all(ms.take(j)) == spec_encode_message(ms[0]) + encode_all(t.take(j - 1)));
        assert(encode_all(ms) =~= encode_all(ms.take(j)) + encode_all(ms.skip(j)));
    }
}

proof fn lemma_encode_message_nonempty(m: MessageV)
    ensures
        spec_encode_message(m).len() >= 1,
{
    let p = spec_message_payload(m);
    lemma_varint_roundtrip(p.len() as u64, p);
    lemma_decode_varint_len(spec_encode_varint(p.len() as u64) + p);
}

/// The first `k` bytes of `ms`' encodings hold the first `j` messages whole
/// and a strict prefix of the next one (nothing, at the end).
proof fn lemma_prefix_split(ms: Seq<MessageV>, k: int) -> (j: int)
    requires
        0 <= k <= encode_all(ms).len(),
    ensures
        0 <= j <= ms.len(),
        encode_all(ms.take(j)).len() <= k,
        j < ms.len() ==> k < encode_all(ms.take(j)).len() + spec_encode_message(ms[j]).len(),
        j == ms.len() ==> k == encode_all(ms).len(),
    decreases ms.len(),
{
    if ms.len() == 0 {
        assert(ms.take(0) =~= ms);
        0
    } else {
        let e0 = spec_encode_message(ms[0]).len() as int;
        if k < e0 {
            assert(ms.take(0) =~= Seq::<MessageV>::empty());
            0
        } else {
            let t = ms.skip(1);
            assert(encode_all(ms) == spec_encode_message(ms[0]) + encode_all(t));
            let j1 = lemma_prefix_split(t, k - e0);
            let j = j1 + 1;
            assert(ms.take(j).skip(1) =~= t.take(j1));
            assert(ms.take(j)[0] == ms[0]);
            assert(encode_all(ms.take(j)) == spec_encode_message(ms[0]) + encode_all(t.take(j1)));
            if j < ms.len() {
                assert(ms[j] == t[j1]);
            }
            j
        }
    }
}

/// A reader holding whole messages followed by bytes it must wait on
/// yields exactly those messages, in order, and keeps the waiting bytes.
proof fn lemma_drain_messages(ms: Seq<MessageV>, q: Seq<u8>)
    requires
        all_fit(ms),
        read_outcome(q) == (ReadOutcome::NeedMore, q),
    ensures
        drain(encode_all(ms) + q) == (ready_all(ms), q),
    decreases ms.len(),
{
    if ms.len() == 0 {
        assert(encode_all(ms) + q =~= q);
        assert(ready_all(ms) =~= Seq::<ReadOutcome>::empty());
    } else {
        let t = ms.skip(1);
        let after = encode_all(t) + q;
        let p = encode_all(ms) + q;
        assert(p =~= spec_encode_message(ms[0]) + after);
        lemma_reader_reads_written_message(ms[0], after);
        lemma_encode_message_nonempty(ms[0]);
        lemma_all_fit_sub(ms, 1, ms.len() as int);
        assert(t =~= ms.subrange(1, ms.len() as int));
        lemma_drain_messages(t, q);
        assert(seq![ReadOutcome::Ready(Ok::<MessageV, DecodeError>(ms[0]))] + ready_all(t) =~= ready_all(ms));
    }
}

/// What remains of a stream after some whole messages and part of the
/// next: `q` is a strict prefix of the first message's encoding, or empty
/// when no message remains.
pub open spec fn waits_on(q: Seq<u8>, ms: Seq<MessageV>) -> bool {
    if ms.len() == 0 {
        q.len() == 0
    } else {
        q.len() < spec_encode_message(ms[0]).len() && q == spec_encode_message(ms[0]).take(q.len() as int)
    }
}

proof fn lemma_waiting_reads_nothing(q: Seq<u8>, ms: Seq<MessageV>)
    requires
        all_fit(ms),
        waits_on(q, ms),
    ensures
        read_outcome(q) == (ReadOutcome::NeedMore, q),
{
    if ms.len() == 0 {
        lemma_decode_varint_len(q);
        assert(q =~= Seq::<u8>::empty());
    } else {
        lemma_reader_waits_for_whole_message(ms[0], q.len() as int);
    }
}

/// A stream of messages read up to some point: the whole messages so far,
/// and the part of the next one that is waiting.
proof fn lemma_split_stream(ms: Seq<MessageV>, b: Seq<u8>, later: Seq<u8>) -> (r: (int, Seq<u8>))
    requires
        all_fit(ms),
        b + later == encode_all(ms),
    ensures
        0 <= r.0 <= ms.len(),
        b == encode_all(ms.take(r.0)) + r.1,
        waits_on(r.1, ms.skip(r.0)),
        all_fit(ms.take(r.0)),
        all_fit(ms.skip(r.0)),
        r.1 + later == encode_all(ms.skip(r.0)),
{
    let e = encode_all(ms);
    let k = b.len() as int;
    assert(b =~= e.take(k));
    let j = lemma_prefix_split(ms, k);
    lemma_encode_all_split(ms, j);
    let head = ms.take(j);
    let tail = ms.skip(j);
    let q2 = b.skip(encode_all(head).len() as int);
    assert(b =~= encode_all(head) + q2);
    lemma_all_fit_sub(ms, 0, j);
    assert(head =~= ms.subrange(0, j));
    lemma_all_fit_sub(ms, j, ms.len() as int);
    assert(tail =~= ms.subrange(j, ms.len() as int));
    if j < ms.len() {
        lemma_encode_all_split(tail, 1);
        assert(tail.take(1) =~= seq![tail[0]]);
        assert(seq![tail[0]].skip(1) =~= Seq::<MessageV>::empty());
        assert(encode_all(seq![tail[0]]) =~= spec_encode_message(tail[0]) + encode_all(seq![tail[0]].skip(1)));
        assert(encode_all(tail) =~= spec_encode_message(tail[0]) + encode_all(tail.skip(1)));
        assert(tail[0] == ms[j]);
        assert(q2 =~= spec_encode_message(tail[0]).take(q2.len() as int));
    } else {
        assert(q2.len() == 0);
    }
    let h = encode_all(head).len() as int;
    assert(e.skip(h) =~= encode_all(tail));
    assert(e =~= encode_all(head) + (q2 + later));
    assert(e.skip(h) =~= q2 + later);
    (j, q2)
}

/// Bytes still waiting on a message are never the whole rest of the
/// stream: a stream that ends with them holds no further message.
proof fn lemma_waiting_is_not_whole(ms: Seq<MessageV>, q: Seq<u8>)
    requires
        waits_on(q, ms),
        q == encode_all(ms),
    ensures
        ms.len() == 0,
{
    if ms.len() > 0 {
        assert(encode_all(ms) == spec_encode_message(ms[0]) + encode_all(ms.skip(1)));
    }
}

proof fn lemma_feed_and_drain(ms: Seq<MessageV>, q: Seq<u8>, chunks: Seq<Seq<u8>>)
    requires
        all_fit(ms),
        waits_on(q, ms),
        q + chunks.flatten() == encode_all(ms),
    ensures
        feed_and_drain(q, chunks) == (ready_all(ms), Seq::<u8>::empty()),
    decreases chunks.len(),
{
    if chunks.len() == 0 {
        assert(q =~= encode_all(ms));
        lemma_waiting_is_not_whole(ms, q);
        assert(ready_all(ms) =~= Seq::<ReadOutcome>::empty());
    } else {
        let c = chunks[0];
        let rest = chunks.skip(1);
        assert(chunks.drop_first() =~= rest);
        assert(chunks.flatten() == c + rest.flatten());
        let b = q + c;
        assert(b + rest.flatten() =~= encode_all(ms));
        let (j, q2) = lemma_split_stream(ms, b, rest.flatten());
        let head = ms.take(j);
        let tail = ms.skip(j);
        lemma_waiting_reads_nothing(q2, tail);
        lemma_drain_messages(head, q2);
        lemma_feed_and_drain(tail, q2, rest);
        assert(ready_all(head) + ready_all(tail) =~= ready_all(ms));
    }
}

/// A reader fed the bytes of messages in any split into reads, and polled
/// until it waits after each read, yields every message once, in the order
/// they were written, and holds nothing afterwards.
pub proof fn lemma_reader_any_chunking(ms: Seq<MessageV>, chunks: Seq<Seq<u8>>)
    requires
        all_fit(ms),
        chunks.flatten() == encode_all(ms),
    ensures
        feed_and_drain(Seq::<u8>::empty(), chunks) == (ready_all(ms), Seq::<u8>::empty()),
{
    assert(Seq::<u8>::empty() + chunks.flatten() =~= encode_all(ms));
    if ms.len() > 0 {
        assert(Seq::<u8>::empty() =~= spec_encode_message(ms[0]).take(0));
        lemma_encode_message_nonempty(ms[0]);
    }
    lemma_feed_and_drain(ms, Seq::<u8>::empty(), chunks);
}

} // verus!

verus! {

/// The frame header written for a frame and its (possibly compressed) payload.
pub open spec fn header_for(f: FrameBufferV, frame_id: u64, compression: Compression, timestamp_ns: u64, payload_len: nat) -> FrameHeader {
    FrameHeader {
        magic: FRAME_MAGIC,
        frame_id,
        window_id: f.window_id,
        width: f.width,
        height: f.height,
        stride: f.stride,
        format: FORMAT_BGRA8,
        compression: compression_byte(compression),
        _reserved: 0,
        timestamp_ns,
        compressed_size: payload_len as u64,
    }
}

/// The payload of a frame under a compression: the lz4 block of its
/// pixels, or the pixels themselves.
pub open spec fn payload_for(f: FrameBufferV, compression: Compression) -> Seq<u8> {
    match compression {
        Compression::Lz4 => lz4_block_compressed(f.data),
        Compression::Raw => f.data,
    }
}

/// The bytes of one frame's unidirectional stream: the 54-byte header then
/// the payload, stamped with `timestamp_ns`.
pub fn frame_stream_bytes(frame: &FrameBuffer, frame_id: u64, compression: Compression, timestamp_ns: u64) -> (bytes: Vec<u8>)
    requires
        compression == Compression::Lz4 ==> lz4_compressible_len(frame@.data.len()),
    ensures
        ({
            let payload = payload_for(frame@, compression);
            bytes@ == spec_encode_frame_header(header_for(frame@, frame_id, compression, timestamp_ns, payload.len()))
                + payload
        }),
        compression == Compression::Lz4 && frame@.data.len() < LZ4_ROUNDTRIP_LIMIT ==> lz4_block_decompressed(
            payload_for(frame@, compression),
            frame@.data.len() as usize,
        ) == Some(frame@.data) && lz4_decodable(payload_for(frame@, compression), frame@.data.len()),
{
    let payload = match compression {
        Compression::Lz4 => compress(frame.data.as_slice()),
        Compression::Raw => copy_bytes(&frame.data),
    };
    let header = FrameHeader {
        magic: FRAME_MAGIC,
        frame_id,
        window_id: frame.window_id,
        width: frame.width,
        height: frame.height,
        stride: frame.stride,
        format: FORMAT_BGRA8,
        compression: compression.as_u8(),
        _reserved: 0,
        timestamp_ns,
        compressed_size: payload.len() as u64,
    };
    let mut bytes: Vec<u8> = Vec::new();
    encode_frame_header(&header, &mut bytes);
    let mut i: usize = 0;
    let ghost head = bytes@;
    while i < payload.len()
        invariant
            i <= payload@.len(),
            bytes@ == head + payload@.take(i as int),
        decreases payload@.len() - i,
    {
        bytes.push(payload[i]);
        i = i + 1;
        assert(bytes@ =~= head + payload@.take(i as int));
    }
    assert(payload@.take(i as int) =~= payload@);
    bytes
}

/// A copy of `v`.
fn copy_bytes(v: &Vec<u8>) -> (c: Vec<u8>)
    ensures
        c@ == v@,
{
    let mut c: Vec<u8> = Vec::new();
    let mut i: usize = 0;
    while i < v.len()
        invariant
            i <= v@.len(),
            c@ == v@.take(i as int),
        decreases v@.len() - i,
    {
        c.push(v[i]);
        i = i + 1;
        assert(c@ =~= v@.take(i as int));
    }
    assert(v@.take(i as int) =~= v@);
    c
}

/// How the server answers a client's first control message.
#[derive(Debug, Clone, PartialEq, Eq)]
pub enum HelloOutcome {
    /// A Hello of the supported version: answer with Welcome.
    Accept { client_name: String },
    /// The first message is not a Hello: close with "expected Hello".
    NotHello,
    /// A Hello of another version: close with the version-mismatch code.
    VersionMismatch { version: u16 },
}

/// Decide the handshake from the client's first message.
pub fn check_hello(first: &Message) -> (r: HelloOutcome)
    ensures
        match first@ {
            MessageV::Hello { version, client_name } => if version == PROTOCOL_VERSION {
                r matches HelloOutcome::Accept { client_name: c } && c@ == client_name
            } else {
                r == (HelloOutcome::VersionMismatch { version })
            },
            _ => r == HelloOutcome::NotHello,
        },
{
    match first {
        Message::Hello { version, client_name } => {
            if *version == PROTOCOL_VERSION {
                HelloOutcome::Accept { client_name: client_name.clone() }
            } else {
                HelloOutcome::VersionMismatch { version: *version }
            }
        },
        _ => HelloOutcome::NotHello,
    }
}

/// What the control loop does with a message from the client.
#[derive(Debug)]
pub enum ControlAction {
    /// Write this message back on the control stream.
    Reply(Message),
    /// Hand this command to the compositor thread.
    Forward(CompositorCommand),
    /// A Pong came back; the round trip took this many nanoseconds.
    PongReceived { rtt_ns: u64 },
    /// A message the server does not expect from a client; it is ignored.
    Unexpected,
}

/// Decide what to do with a client control message, given the current
/// clock reading `now_ns`.
pub fn control_action(msg: Message, now_ns: u64) -> (a: ControlAction)
    ensures
        match msg@ {
            MessageV::Ping { timestamp_ns } => a matches ControlAction::Reply(Message::Pong { timestamp_ns: t })
                && t == timestamp_ns,
            MessageV::Pong { timestamp_ns } => a matches ControlAction::PongReceived { rtt_ns }
                && rtt_ns == (if now_ns >= timestamp_ns { now_ns - timestamp_ns } else { 0 }),
            MessageV::Input { window_id, event } => a matches ControlAction::Forward(
                CompositorCommand::Input { window_id: w, event: e },
            ) && w == window_id && e == event,
            MessageV::SetFocus { window_id } => a matches ControlAction::Forward(
                CompositorCommand::SetFocus { window_id: w },
            ) && w == window_id,
            MessageV::ConfigureWindow { window_id, width, height } => a matches ControlAction::Forward(
                CompositorCommand::ConfigureWindow { window_id: w, width: x, height: y },
            ) && w == window_id && x == width && y == height,
            MessageV::CloseWindow { window_id } => a matches ControlAction::Forward(
                CompositorCommand::CloseWindow { window_id: w },
            ) && w == window_id,
            _ => a is Unexpected,
        },
{
    match msg {
        Message::Ping { timestamp_ns } => ControlAction::Reply(Message::Pong { timestamp_ns }),
        Message::Pong { timestamp_ns } => ControlAction::PongReceived {
            rtt_ns: now_ns.saturating_sub(timestamp_ns),
        },
        Message::Input { window_id, event } => ControlAction::Forward(CompositorCommand::Input { window_id, event }),
        Message::SetFocus { window_id } => ControlAction::Forward(CompositorCommand::SetFocus { window_id }),
        Message::ConfigureWindow { window_id, width, height } => ControlAction::Forward(
            CompositorCommand::ConfigureWindow { window_id, width, height },
        ),
        Message::CloseWindow { window_id } => ControlAction::Forward(CompositorCommand::CloseWindow { window_id }),
        _ => ControlAction::Unexpected,
    }
}

/// The newest frame or shutdown of a batch (window events aside).
pub open spec fn newest_control(s: Seq<NetCommandV>) -> Option<NetCommandV>
    decreases s.len(),
{
    if s.len() == 0 {
        None
    } else if s.last() is WindowEvents {
        newest_control(s.drop_last())
    } else {
        Some(s.last())
    }
}

/// What a session's frame sender does with one drained batch.
#[derive(Debug)]
pub struct SessionBatch {
    /// Window-event lists to forward to the control loop, in order.
    pub window_events: Vec<Vec<(u64, WindowEventKind)>>,
    /// The newest frame or shutdown: a frame is written, a shutdown ends
    /// the sender.
    pub latest: Option<NetCommand>,
}

/// Split a session's drained batch: every window-event list in order, and
/// the newest of the frames and shutdowns.
pub fn session_batch(batch: Vec<NetCommand>) -> (r: SessionBatch)
    ensures
        r.window_events@.map_values(|e: Vec<(u64, WindowEventKind)>| events_view(e@))
            == crate::server::net::event_lists(batch@.map_values(|c: NetCommand| c@)),
        match newest_control(batch@.map_values(|c: NetCommand| c@)) {
            Some(c) => r.latest matches Some(l) && l@ == c,
            None => r.latest is None,
        },
{
    let ghost all = batch@.map_values(|c: NetCommand| c@);
    let mut batch = batch;
    let mut latest: Option<NetCommand> = None;
    let mut window_events: Vec<Vec<(u64, WindowEventKind)>> = Vec::new();
    let ghost mut k: int = 0;
    while batch.len() > 0
        invariant
            0 <= k <= all.len(),
            batch@.map_values(|c: NetCommand| c@) == all.skip(k),
            match newest_control(all.take(k)) {
                Some(c) => latest matches Some(l) && l@ == c,
                None => latest is None,
            },
            window_events@.map_values(|e: Vec<(u64, WindowEventKind)>| events_view(e@))
                == crate::server::net::event_lists(all.take(k)),
        decreases batch@.len(),
    {
        proof {
            assert(batch@.map_values(|c: NetCommand| c@).len() == batch@.len());
            assert(k < all.len());
        }
        let ghost pre = batch@;
        let cmd = batch.remove(0);
        proof {
            assert(pre.map_values(|c: NetCommand| c@)[0] == pre[0]@);
            assert(all.skip(k)[0] == cmd@);
            assert(all.take(k + 1).drop_last() =~= all.take(k));
            assert(all.take(k + 1).last() == cmd@);
        }
        let ghost before = window_events@;
        match cmd {
            NetCommand::WindowEvents(events) => {
                window_events.push(events);
                proof {
                    assert(window_events@.map_values(|e: Vec<(u64, WindowEventKind)>| events_view(e@))
                        =~= before.map_values(|e: Vec<(u64, WindowEventKind)>| events_view(e@)).push(
                        events_view(events@),
                    ));
                }
            },
            other => {
                latest = Some(other);
            },
        }
        proof {
            assert(all.skip(k + 1) =~= all.skip(k).skip(1));
            assert(batch@.map_values(|c: NetCommand| c@) =~= all.skip(k + 1));
            k = k + 1;
        }
    }
    proof {
        assert(all.take(k) =~= all);
    }
    SessionBatch { window_events, latest }
}

} // verus!
