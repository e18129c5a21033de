# nyxframe

The server half of NyxFrame, a remote-desktop stream to a phone: it captures
the Linux screen (X11 shared memory or the Wayland portal with PipeWire),
converts each frame to full-range YUV 4:2:0, encodes it with OpenH264, sends
it to the Go gateway over a Unix socket, and injects the mouse and keyboard
input the gateway sends back through `/dev/uinput`.

## Layout

- `src/` — the verified library (Verus):
  - `yuv.rs` — BGRA to RGB and full-range RGB to YUV 4:2:0 conversion.
  - `nal.rs` — counting SPS, PPS and IDR units in an Annex-B stream.
  - `encoder.rs` — the OpenH264 encoder, with a record of the frames and
    keyframe requests handed to it.
  - `framing.rs` — the byte framing of frames and commands on the gateway socket.
  - `input.rs` — pointer scaling and button codes of the virtual input device.
  - `protocol.rs`, `session.rs` — gateway commands, stream settings, the
    per-connection capture session and frame pacing.
  - `capture.rs` — capture backend state, frame assembly, backend choice.
  - `env.rs` — session environment scoring and backend validation.
  - `config.rs`, `launch.rs`, `paths.rs`, `discovery.rs`, `text.rs` — server
    configuration, start-up decisions, runtime paths, the phone discovery
    broadcast, and the string helpers they share.
- `tests/` — tests of the library on concrete values.
- `app/` — the daemon itself: process environment, files, sockets, threads,
  the capture devices, the Go gateway child process and `/dev/uinput`.
