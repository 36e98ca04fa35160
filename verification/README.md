# gb26875

A verified library for the GB26875 fire-alarm transmission protocol: it finds
frames in a TCP byte stream, parses them into messages, encodes messages into
frames, and keeps a registry of which protocol is served on which port.

Layout:

- `src/buffers.rs`: the `Bytes` / `BytesMut` buffers of the `bytes` crate, their
  contents as sequences, and the buffer methods used, each with its contract.
- `src/error.rs`: `ProtocolError` and its view.
- `src/text.rs`: the texts of error messages and summaries.
- `src/protocol/traits.rs`: `ProtocolMessage`, `FrameDetector`, `ProtocolParser`,
  `Protocol`, each method with its contract.
- `src/protocol/gb26875/`: the message types, the frame detector, the parser and
  encoder, `ProtocolA`, and the proved properties of framing and parsing together.
- `src/codec/`: the codec that decodes a stream and the registry of protocols.
- `app/`: the TCP server (tokio), the `tokio_util` decoder over the codec, and the
  error type with its `Display` impl.
