# arclink

The logic of ArcLink Remote, a LAN remote-desktop system (a host that is
controlled and a viewer that controls it), written in Verus with its
behaviour stated in contracts and proved.

`src/` is the verified library:

- `framing` — length-prefixed control frames (`"ARCL"`, big-endian length,
  payload), with the round trip proved.
- `protocol` — control messages, the video packet header, and the split of
  an encoded frame into MTU-sized fragments.
- `render` — viewer-side reassembly of fragments (stale ones dropped after
  100 ms; frame leaping: a packet of a newer frame discards every partly
  received older frame, and packets of older frames are ignored from then
  on), decoding, and the one-slot store of the newest decoded frame;
  reassembly is proved to undo fragmentation in any order of arrival.
- `host`, `viewer` — the connection state machines of both sides, the
  handshake messages, and heartbeat / timeout pacing of a live session.
- `session` — session records and input authorisation.
- `capture` — the fallback test-pattern capturer and the pixel handling of
  the GDI capturer, with JPEG encoding.
- `input`, `logging`, `metrics`, `text` — key mapping, injection flags and
  pointer-move truncation, the bounded display log, byte-rate windows, and
  decimal / port text.

`app/` is the console program around it (`arclink host`,
`arclink viewer <ip> [port]`): sockets, threads, clocks, serialisation with
bincode, and the floating-point metrics. `tests/` runs the library.

`jpeg-decoder` is named in `Cargo.toml` only to switch on its
`platform_independent` feature: decoding then takes no CPU-dependent SIMD
path, so a frame's bytes decode to the same pixels on every machine, which
is what the contract of `render::decode_frame` relies on.
