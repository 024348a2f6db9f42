//! The viewer session's decisions: which certificate verifier to use and
//! what it accepts, the handshake, control-message reads, and turning a
//! frame stream's bytes into a frame.

use vstd::prelude::*;

use crate::protocol::codec::{
    decode_frame_header, decode_message, frame_header_check, lemma_frame_header_roundtrip,
    spec_decode_frame_header, spec_decode_message, spec_encode_frame_header, Cursor, DecodeError,
    MAX_FRAME_BYTES,
};
use crate::protocol::compress::{decompress, lz4_block_decompressed, lz4_decodable, Compression};
use crate::protocol::message::{FrameHeader, Message, MessageV, FRAME_HEADER_SIZE};
use crate::server::net::cert::{sha256, sha256_digest};
use crate::server::net::session::{header_for, payload_for};
use crate::server::rendering::FrameBufferV;
use crate::viewer::framebuf::{FrameBuffer, FrameV};

verus! {

/// Protocol version the viewer speaks.
pub const VIEWER_PROTOCOL_VERSION: u16 = 1u16;

/// The name the viewer introduces itself with.
pub const CLIENT_NAME: &'static str = "wayland-remote-viewer";

/// Accepts the server only when the SHA-256 of its certificate's DER bytes
/// equals the pinned fingerprint (trust on first use).
#[derive(Debug)]
pub struct FingerprintVerifier {
    pub expected: [u8; 32],
}

/// The server certificate did not match the pinned fingerprint.
#[derive(Debug, Clone, Copy, PartialEq, Eq, Structural)]
pub struct FingerprintMismatch;

impl FingerprintVerifier {
    /// Accept `end_entity` (certificate DER) iff its SHA-256 is the pinned one.
    pub fn verify_server_cert(&self, end_entity: &[u8]) -> (r: Result<(), FingerprintMismatch>)
        ensures
            r is Ok <==> sha256(end_entity@) == self.expected@,
    {
        let actual = sha256_digest(end_entity);
        let mut i: usize = 0;
        while i < 32
            invariant
                i <= 32,
                actual@ == sha256(end_entity@),
                actual@.len() == 32,
                self.expected@.len() == 32,
                forall|j: int| 0 <= j < i ==> actual@[j] == self.expected@[j],
            decreases 32 - i,
        {
            if actual[i] != self.expected[i] {
                assert(actual@[i as int] != self.expected@[i as int]);
                return Err(FingerprintMismatch);
            }
            i = i + 1;
        }
        assert(actual@ =~= self.expected@);
        Ok(())
    }
}

/// Which certificate check a connection uses.
#[derive(Debug, Clone, Copy)]
pub enum VerifierChoice {
    /// Pin this SHA-256 fingerprint.
    Fingerprint([u8; 32]),
    /// Accept any certificate (testing only).
    Insecure,
}

/// Neither a fingerprint nor `--insecure` was given.
#[derive(Debug, Clone, Copy, PartialEq, Eq, Structural)]
pub struct NoVerifier;

/// Pick the certificate check: a given fingerprint wins; otherwise
/// `insecure` allows any certificate; otherwise connecting is refused.
pub fn choose_verifier(fingerprint: Option<[u8; 32]>, insecure: bool) -> (r: Result<VerifierChoice, NoVerifier>)
    ensures
        match fingerprint {
            Some(fp) => r matches Ok(VerifierChoice::Fingerprint(g)) && g@ == fp@,
            None => if insecure {
                r matches Ok(VerifierChoice::Insecure)
            } else {
                r is Err
            },
        },
{
    match (fingerprint, insecure) {
        (Some(fp), _) => Ok(VerifierChoice::Fingerprint(fp)),
        (None, true) => Ok(VerifierChoice::Insecure),
        (None, false) => Err(NoVerifier),
    }
}

/// The Hello the viewer opens the control stream with.
pub fn hello_message() -> (m: Message)
    ensures
        m@ == (MessageV::Hello { version: VIEWER_PROTOCOL_VERSION, client_name: CLIENT_NAME@ }),
{
    Message::Hello { version: VIEWER_PROTOCOL_VERSION, client_name: CLIENT_NAME.to_owned() }
}

/// Why the server's handshake reply was refused.
#[derive(Debug, Clone, Copy, PartialEq, Eq, Structural)]
pub enum HandshakeError {
    /// A Welcome of another protocol version.
    VersionMismatch(u16),
    /// Something other than a Welcome.
    NotWelcome,
}

/// The output size from the server's handshake reply: a Welcome of the
/// viewer's version gives its size; another version or another message is
/// refused.
pub fn welcome_size(reply: &Message) -> (r: Result<(u32, u32), HandshakeError>)
    ensures
        match reply@ {
            MessageV::Welcome { version, width, height } => if version == VIEWER_PROTOCOL_VERSION {
                r == Ok::<(u32, u32), HandshakeError>((width, height))
            } else {
                r == Err::<(u32, u32), HandshakeError>(HandshakeError::VersionMismatch(version))
            },
            _ => r == Err::<(u32, u32), HandshakeError>(HandshakeError::NotWelcome),
        },
{
    match reply {
        Message::Welcome { version, width, height } => {
            if *version != VIEWER_PROTOCOL_VERSION {
                Err(HandshakeError::VersionMismatch(*version))
            } else {
                Ok((*width, *height))
            }
        },
        _ => Err(HandshakeError::NotWelcome),
    }
}

/// What reading the buffered control-stream bytes yields.
#[derive(Debug)]
pub enum ControlRead {
    /// A complete message.
    Message(Message),
    /// More bytes are needed.
    NeedMore,
    /// The bytes do not form a message.
    Malformed(DecodeError),
}

/// Try to read one control message from the bytes received so far.
pub fn poll_control(pending: &[u8]) -> (r: ControlRead)
    ensures
        match spec_decode_message(pending@) {
            Ok((m, _)) => r matches ControlRead::Message(x) && x@ == m,
            Err(DecodeError::UnexpectedEof) => r is NeedMore,
            Err(e) => r matches ControlRead::Malformed(x) && x == e,
        },
{
    let mut c = Cursor::new(pending);
    assert(c.rest() =~= pending@);
    match decode_message(&mut c) {
        Ok(m) => ControlRead::Message(m),
        Err(DecodeError::UnexpectedEof) => ControlRead::NeedMore,
        Err(e) => ControlRead::Malformed(e),
    }
}

/// Whether a message is the Pong for the Ping stamped `ts`.
pub fn is_pong_for(msg: &Message, ts: u64) -> (b: bool)
    ensures
        b == (msg@ matches MessageV::Pong { timestamp_ns } && timestamp_ns == ts),
{
    match msg {
        Message::Pong { timestamp_ns } => *timestamp_ns == ts,
        _ => false,
    }
}

/// The round trip of a Ping stamped `sent_ns` answered at `now_ns`.
pub fn round_trip_ns(sent_ns: u64, now_ns: u64) -> (rtt: u64)
    requires
        sent_ns <= now_ns,
    ensures
        rtt == now_ns - sent_ns,
{
    now_ns - sent_ns
}

/// Decode and validate the 54-byte header that opens a frame stream.
pub fn frame_stream_header(header_bytes: &[u8]) -> (r: Result<FrameHeader, DecodeError>)
    ensures
        match spec_decode_frame_header(header_bytes@) {
            Ok((h, _)) => r == Ok::<FrameHeader, DecodeError>(h),
            Err(e) => r == Err::<FrameHeader, DecodeError>(e),
        },
{
    let mut c = Cursor::new(header_bytes);
    assert(c.rest() =~= header_bytes@);
    decode_frame_header(&mut c)
}

/// The uncompressed size a frame's header announces (stride × height).
pub open spec fn expected_len(h: FrameHeader) -> usize {
    (h.stride * h.height) as usize
}

/// The frame a header and its payload make: raw payloads are the pixels,
/// lz4 payloads are decompressed to at most stride × height bytes. An
/// unknown compression byte or a failed decompression (a refused block
/// among them) is an error.
pub fn frame_from_payload(header: &FrameHeader, payload: Vec<u8>) -> (r: Result<FrameBuffer, DecodeError>)
    requires
        header.compression == 1 ==> header.stride as int * header.height as int <= isize::MAX,
    ensures
        header.compression > 1 ==> r == Err::<FrameBuffer, DecodeError>(DecodeError::UnknownCompression(header.compression)),
        header.compression == 0 ==> (r matches Ok(f) && f@ == (FrameV {
            data: payload@,
            width: header.width,
            height: header.height,
            stride: header.stride,
            frame_id: header.frame_id,
            timestamp_ns: header.timestamp_ns,
            window_id: header.window_id,
        })),
        header.compression == 1 && !lz4_decodable(payload@, expected_len(*header) as nat) ==> r == Err::<FrameBuffer, DecodeError>(
            DecodeError::DecompressFailed,
        ),
        header.compression == 1 && lz4_decodable(payload@, expected_len(*header) as nat) ==> match lz4_block_decompressed(payload@, expected_len(*header)) {
            Some(d) => r matches Ok(f) && f@ == (FrameV {
                data: d,
                width: header.width,
                height: header.height,
                stride: header.stride,
                frame_id: header.frame_id,
                timestamp_ns: header.timestamp_ns,
                window_id: header.window_id,
            }),
            None => r == Err::<FrameBuffer, DecodeError>(DecodeError::DecompressFailed),
        },
{
    let data = match Compression::from_u8(header.compression) {
        Ok(Compression::Lz4) => {
            let stride = header.stride as u64;
            let height = header.height as u64;
            assert(stride * height <= 0xffff_ffff_ffff_ffffu64) by (nonlinear_arith)
                requires
                    stride <= 0xffff_ffff,
                    height <= 0xffff_ffff,
            ;
            let product = stride * height;
            let expected = product as usize;
            match decompress(payload.as_slice(), expected) {
                Ok(d) => d,
                Err(e) => {
                    return Err(e);
                },
            }
        },
        Ok(Compression::Raw) => payload,
        Err(e) => {
            return Err(e);
        },
    };
    Ok(FrameBuffer {
        data,
        width: header.width,
        height: header.height,
        stride: header.stride,
        frame_id: header.frame_id,
        timestamp_ns: header.timestamp_ns,
        window_id: header.window_id,
    })
}

/// Number of bytes of the frame header that opens each frame stream.
pub fn frame_header_len() -> (n: usize)
    ensures
        n == 54,
{
    FRAME_HEADER_SIZE
}

/// The value of an ASCII hexadecimal digit (either case).
pub open spec fn hex_value(c: u8) -> Option<u8> {
    if 48 <= c <= 57 {
        Some((c - 48) as u8)
    } else if 97 <= c <= 102 {
        Some((c - 87) as u8)
    } else if 65 <= c <= 70 {
        Some((c - 55) as u8)
    } else {
        None
    }
}

/// The byte a two-character hex chunk denotes: two hex digits, or a `+`
/// sign and one digit.
pub open spec fn hex_pair(a: u8, b: u8) -> Option<u8> {
    match (hex_value(a), hex_value(b)) {
        (Some(h), Some(l)) => Some((h * 16 + l) as u8),
        (None, Some(l)) => if a == 43 { Some(l) } else { None },
        _ => None,
    }
}

fn hex_value_of(c: u8) -> (r: Option<u8>)
    ensures
        r == hex_value(c),
        r matches Some(v) ==> v < 16,
{
    if 48 <= c && c <= 57 {
        Some(c - 48)
    } else if 97 <= c && c <= 102 {
        Some(c - 87)
    } else if 65 <= c && c <= 70 {
        Some(c - 55)
    } else {
        None
    }
}

/// Parse a pinned fingerprint given as 64 hex characters (two per byte).
/// Any other length, or a chunk that is not a hex byte, gives `None`.
pub fn parse_fingerprint(hex: &[u8]) -> (r: Option<[u8; 32]>)
    ensures
        (hex@.len() == 64 && forall|i: int| 0 <= i < 32 ==> #[trigger] hex_pair(hex@[2 * i], hex@[2 * i + 1]) is Some)
            <==> r is Some,
        r matches Some(fp) ==> forall|i: int| 0 <= i < 32 ==> Some(#[trigger] fp@[i]) == hex_pair(hex@[2 * i], hex@[2 * i + 1]),
{
    if hex.len() != 64 {
        return None;
    }
    let mut out: [u8; 32] = [0u8; 32];
    let mut i: usize = 0;
    while i < 32
        invariant
            i <= 32,
            hex@.len() == 64,
            out@.len() == 32,
            forall|j: int| 0 <= j < i ==> Some(#[trigger] out@[j]) == hex_pair(hex@[2 * j], hex@[2 * j + 1]),
            forall|j: int| 0 <= j < i ==> #[trigger] hex_pair(hex@[2 * j], hex@[2 * j + 1]) is Some,
        decreases 32 - i,
    {
        let a = hex[2 * i];
        let b = hex[2 * i + 1];
        let v = match (hex_value_of(a), hex_value_of(b)) {
            (Some(h), Some(l)) => h * 16 + l,
            (None, Some(l)) => if a == 43 {
                l
            } else {
                assert(hex_pair(hex@[2 * (i as int)], hex@[2 * (i as int) + 1]) is None);
                return None;
            },
            _ => {
                assert(hex_pair(hex@[2 * (i as int)], hex@[2 * (i as int) + 1]) is None);
                return None;
            },
        };
        out[i] = v;
        i = i + 1;
    }
    Some(out)
}

/// A frame the compositor sends on a frame stream comes out of the viewer's
/// frame-stream reading as the same pixels, size and window, with the frame
/// id and timestamp of its header, whether the payload was sent raw or as an
/// lz4 block. The frame holds `stride × height` bytes and passes the header
/// checks (a stride of at least four bytes per pixel, a bounded size); for an
/// lz4 payload the law rests on the block decompressing back to the frame's
/// bytes, which the compositor's sender states of every block it writes,
/// and on its runs of `0xFF` bytes being ones the viewer's decoder can
/// read; the sender states both of every block it writes for a frame of
/// this size.
#[verifier::rlimit(60)]
pub proof fn lemma_frame_stream_roundtrip(
    f: FrameBufferV,
    frame_id: u64,
    compression: Compression,
    timestamp_ns: u64,
)
    requires
        f.stride as int >= f.width as int * 4,
        f.stride as int * f.height as int <= MAX_FRAME_BYTES as int,
        f.data.len() == f.stride as int * f.height as int,
        compression == Compression::Lz4 ==> lz4_block_decompressed(
            payload_for(f, compression),
            f.data.len() as usize,
        ) == Some(f.data),
        compression == Compression::Lz4 ==> lz4_decodable(payload_for(f, compression), f.data.len()),
    ensures
        ({
            let payload = payload_for(f, compression);
            let h = header_for(f, frame_id, compression, timestamp_ns, payload.len());
            let bytes = spec_encode_frame_header(h) + payload;
            &&& spec_decode_frame_header(bytes) == Ok::<(FrameHeader, int), DecodeError>((h, 54))
            &&& bytes.skip(54) == payload
            &&& h.compression <= 1
            &&& h.compression == 0 ==> payload == f.data
            &&& h.compression == 1 ==> lz4_block_decompressed(payload, expected_len(h)) == Some(f.data)
                && lz4_decodable(payload, expected_len(h) as nat)
            &&& (h.window_id, h.width, h.height, h.stride, h.frame_id, h.timestamp_ns) == (
                f.window_id,
                f.width,
                f.height,
                f.stride,
                frame_id,
                timestamp_ns,
            )
        }),
{
    let payload = payload_for(f, compression);
    let h = header_for(f, frame_id, compression, timestamp_ns, payload.len());
    assert(frame_header_check(h) is Ok);
    assert(spec_decode_frame_header(spec_encode_frame_header(h) + payload) == Ok::<(FrameHeader, int), DecodeError>((h, 54))) by {
        lemma_frame_header_roundtrip(h, payload);
    }
    assert((spec_encode_frame_header(h) + payload).skip(54) =~= payload) by {
        assert(spec_encode_frame_header(h).len() == 54);
    }
    assert(expected_len(h) == f.data.len() as usize);
}

} // verus!
