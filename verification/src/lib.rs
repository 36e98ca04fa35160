//! Framing, parsing and encoding of GB26875 messages, with the registry and
//! codec that serve them on a port.
pub mod buffers;
pub mod error;
pub mod text;
pub mod protocol;
pub mod codec;
