//! The GB26875 message and its parts.
use crate::buffers::{bytes_len, bytes_view};
use crate::error::Result;
use crate::protocol::gb26875::parser::{encode_message, spec_encode_message};
use crate::protocol::traits::ProtocolMessage;
use crate::text::{format_summary, summary_text};
use bytes::Bytes;
use vstd::prelude::*;

verus! {

/// The start marker that opens every frame.
pub const MAGIC_NUMBER: u16 = 0x4040;

/// The end marker that closes every frame.
pub const END_MARKER: u16 = 0x2323;

/// The number of bytes of the header.
pub const HEADER_SIZE: usize = 27;

/// A GB26875 message: header, application data and checksum.
#[derive(Debug, Clone)]
pub struct ProtocolAMessage {
    pub header: ProtocolAHeader,
    pub data: Bytes,
    pub checksum: u8,
}

/// The header of a GB26875 message.
#[derive(Debug, Clone)]
pub struct ProtocolAHeader {
    pub magic: u16,
    pub service_id: u16,
    pub version: ProtocolVersion,
    pub timestamp: Timestamp,
    pub src_addr: [u8; 6],
    pub dst_addr: [u8; 6],
    pub data_unit_len: u16,
    pub control: u8,
}

/// The protocol version carried in the header.
#[derive(Debug, Clone)]
pub struct ProtocolVersion {
    pub main_version: u8,
    pub user_version: u8,
}

/// The time stamp carried in the header.
#[derive(Debug, Clone)]
pub struct Timestamp {
    pub second: u8,
    pub minute: u8,
    pub hour: u8,
    pub day: u8,
    pub month: u8,
    pub year: u8,
}

/// A header as contracts speak of it: the addresses as sequences.
pub struct HeaderView {
    pub magic: u16,
    pub service_id: u16,
    pub version: ProtocolVersion,
    pub timestamp: Timestamp,
    pub src_addr: Seq<u8>,
    pub dst_addr: Seq<u8>,
    pub data_unit_len: u16,
    pub control: u8,
}

/// A message as contracts speak of it: the data as a sequence.
pub struct MessageView {
    pub header: HeaderView,
    pub data: Seq<u8>,
    pub checksum: u8,
}

impl View for ProtocolAHeader {
    type V = HeaderView;

    open spec fn view(&self) -> HeaderView {
        HeaderView {
            magic: self.magic,
            service_id: self.service_id,
            version: self.version,
            timestamp: self.timestamp,
            src_addr: self.src_addr@,
            dst_addr: self.dst_addr@,
            data_unit_len: self.data_unit_len,
            control: self.control,
        }
    }
}

impl View for ProtocolAMessage {
    type V = MessageView;

    open spec fn view(&self) -> MessageView {
        MessageView { header: self.header@, data: bytes_view(self.data), checksum: self.checksum }
    }
}

impl ProtocolMessage for ProtocolAMessage {
    fn message_type(&self) -> (r: &str)
        ensures
            r@ == "ProtocolA"@,
    {
        "ProtocolA"
    }

    open spec fn to_bytes_requires(&self) -> bool {
        bytes_view(self.data).len() + 30 <= isize::MAX
    }

    /// Serialises the message in the frame format that `ParserImpl::encode` writes.
    fn to_bytes(&self) -> (r: Result<Bytes>)
        ensures
            r matches Ok(b) && bytes_view(b) == spec_encode_message(self@),
    {
        Ok(encode_message(self))
    }

    fn summary(&self) -> (r: String)
        ensures
            r@ == summary_text(self.header.service_id, bytes_view(self.data).len() as usize),
    {
        format_summary(self.header.service_id, bytes_len(&self.data))
    }
}

} // verus!
