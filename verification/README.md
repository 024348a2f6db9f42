# wayland-remote

Remote display of Wayland windows: a headless compositor streams window
frames to viewers, and viewers send keyboard and mouse input back.

This crate is the verified core of that system, written in Verus:

- `src/protocol`: the QUIC wire format (varint-framed messages and the
  54-byte frame header), with encoders and decoders proved inverse and
  decoding proved to reject every truncated message. Frame payloads may be
  lz4 blocks; that a block decompresses back to its input is taken from the
  trusted wrapper around `lz4_flex`, for inputs under about 4 GiB.
- `src/server`: the compositor side — window bookkeeping and focus, the
  legacy wl_shell requests, input routing and keymaps, the raw TCP
  streaming formats, telemetry, and the network session's decisions
  (handshake, control dispatch, the control-stream reader, frame
  coalescing and delivery, frame streams).
- `src/viewer`: the viewer side — frame store, window tracking, input
  capture and encoding, handshake and frame-stream reading, pixel
  conversions and window-message decisions.
- `src/wire.rs`, `src/clock.rs`: big-endian helpers and time readings.

Calls into `lz4_flex`, `sha2` and `bytes` stand behind small trusted
wrappers whose contracts state what those crates' sources show.

`app/` is the unverified shell around the library: argument parsing, the
async raw-TCP server and client, the frame pump's sends, the input
channel, PNG snapshots and floating-point pointer coordinates.

Not here: the compositor's Wayland event loop and GPU/pixman rendering
(smithay, calloop), the QUIC transport and certificate generation (quinn,
rustls, rcgen) and the Win32/winit viewer windows. Those crates are not
among this crate's dependencies; the decisions those loops make stand in
`src/`, and the I/O around them is absent.
