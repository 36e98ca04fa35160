//! The codec that turns a byte stream into messages, and the registry of
//! protocols by port.
pub mod dispatcher;
pub mod registry;
