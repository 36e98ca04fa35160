//! Parsing and encoding of GB26875 frames.
use crate::buffers::{
    be_u16_at, be_u16_bytes, bytes_as_slice, bytes_copy_to_bytes, bytes_copy_to_slice,
    bytes_get_u16, bytes_get_u8, bytes_mut_freeze, bytes_mut_put_slice, bytes_mut_put_u16,
    bytes_mut_put_u8, bytes_mut_view, bytes_mut_with_capacity, bytes_view,
};
use crate::error::{ProtocolError, ProtocolErrorView, Result};
use crate::protocol::gb26875::types::{
    HeaderView, MessageView, ProtocolAHeader, ProtocolAMessage, ProtocolVersion, Timestamp,
    END_MARKER, HEADER_SIZE, MAGIC_NUMBER,
};
use crate::protocol::traits::ProtocolParser;
use bytes::Bytes;
use vstd::prelude::*;

verus! {

/// The parser of GB26875 frames.
pub struct ParserImpl;

/// The header that the first 27 bytes of `s` spell.
pub open spec fn spec_header(s: Seq<u8>) -> HeaderView {
    HeaderView {
        magic: be_u16_at(s, 0) as u16,
        service_id: be_u16_at(s, 2) as u16,
        version: ProtocolVersion { main_version: s[4], user_version: s[5] },
        timestamp: Timestamp {
            second: s[6],
            minute: s[7],
            hour: s[8],
            day: s[9],
            month: s[10],
            year: s[11],
        },
        src_addr: s.subrange(12, 18),
        dst_addr: s.subrange(18, 24),
        data_unit_len: be_u16_at(s, 24) as u16,
        control: s[26],
    }
}

/// The frames that `ParserImpl::parse` reads without running out of bytes:
/// the start marker, and when it matches, the header, the data that the header's
/// length announces, the checksum and the end marker.
pub open spec fn parse_frame_requires(s: Seq<u8>) -> bool {
    &&& s.len() >= 2
    &&& be_u16_at(s, 0) == MAGIC_NUMBER ==> s.len() >= 30 + be_u16_at(s, 24)
}

/// The error of a frame `s` that does not open with the start marker.
pub open spec fn bad_magic_error(s: Seq<u8>) -> ProtocolErrorView {
    ProtocolErrorView::InvalidMagic { expected: MAGIC_NUMBER, got: be_u16_at(s, 0) as u16 }
}

/// The message that the frame `s` holds: an error when it does not open with the
/// start marker, else the header, the data that the header's length announces and
/// the checksum byte after it. The end marker is not read.
pub open spec fn spec_parse_frame(s: Seq<u8>) -> std::result::Result<MessageView, ProtocolErrorView> {
    if be_u16_at(s, 0) != MAGIC_NUMBER {
        Err(bad_magic_error(s))
    } else {
        let n = be_u16_at(s, 24);
        Ok(MessageView { header: spec_header(s), data: s.subrange(27, 27 + n), checksum: s[27 + n] })
    }
}

/// The frame of a message: the header fields in order (16-bit fields big-endian),
/// the data, the checksum and the end marker.
#[verifier::opaque]
pub open spec fn spec_encode_message(m: MessageView) -> Seq<u8> {
    be_u16_bytes(m.header.magic) + be_u16_bytes(m.header.service_id) + seq![
        m.header.version.main_version,
        m.header.version.user_version,
        m.header.timestamp.second,
        m.header.timestamp.minute,
        m.header.timestamp.hour,
        m.header.timestamp.day,
        m.header.timestamp.month,
        m.header.timestamp.year,
    ] + m.header.src_addr + m.header.dst_addr + be_u16_bytes(m.header.data_unit_len) + seq![
        m.header.control,
    ] + m.data + seq![m.checksum] + be_u16_bytes(END_MARKER)
}

impl ProtocolParser for ParserImpl {
    type Message = ProtocolAMessage;

    open spec fn parse_requires(&self, src: Seq<u8>) -> bool {
        parse_frame_requires(src)
    }

    open spec fn spec_parse(&self, src: Seq<u8>) -> std::result::Result<MessageView, ProtocolErrorView> {
        spec_parse_frame(src)
    }

    fn can_parse(&self, frame: &[u8]) -> (r: bool) {
        if frame.len() < 2 {
            return false;
        }
        let magic = (frame[0] as u16) * 256 + (frame[1] as u16);
        if magic != MAGIC_NUMBER {
            return true;
        }
        if frame.len() < HEADER_SIZE {
            return false;
        }
        let data_len = (frame[24] as usize) * 256 + (frame[25] as usize);
        frame.len() - HEADER_SIZE >= data_len + 3
    }

    fn parse(&self, data: Bytes) -> (r: Result<ProtocolAMessage>) {
        let ghost s = bytes_view(data);
        let mut data = data;
        let header = parse_header(&mut data)?;

        let data_len = header.data_unit_len as usize;
        let app_data = bytes_copy_to_bytes(&mut data, data_len);

        let checksum = bytes_get_u8(&mut data);
        let _end_marker = bytes_get_u16(&mut data);

        assert(bytes_view(app_data) =~= s.subrange(27, 27 + data_len));
        Ok(ProtocolAMessage { header, data: app_data, checksum })
    }

    open spec fn encode_requires(&self, msg: MessageView) -> bool {
        msg.data.len() + 30 <= isize::MAX
    }

    open spec fn spec_encode(&self, msg: MessageView) -> std::result::Result<Seq<u8>, ProtocolErrorView> {
        Ok(spec_encode_message(msg))
    }

    fn encode(&self, msg: &ProtocolAMessage) -> (r: Result<Bytes>) {
        Ok(encode_message(msg))
    }
}

/// Writes the frame of `msg`.
pub(crate) fn encode_message(msg: &ProtocolAMessage) -> (r: Bytes)
    requires
        bytes_view(msg.data).len() + 30 <= isize::MAX,
    ensures
        bytes_view(r) == spec_encode_message(msg@),
{
    let data = bytes_as_slice(&msg.data);
    let mut buf = bytes_mut_with_capacity(HEADER_SIZE + data.len() + 3);

    bytes_mut_put_u16(&mut buf, msg.header.magic);
    bytes_mut_put_u16(&mut buf, msg.header.service_id);
    bytes_mut_put_u8(&mut buf, msg.header.version.main_version);
    bytes_mut_put_u8(&mut buf, msg.header.version.user_version);
    bytes_mut_put_u8(&mut buf, msg.header.timestamp.second);
    bytes_mut_put_u8(&mut buf, msg.header.timestamp.minute);
    bytes_mut_put_u8(&mut buf, msg.header.timestamp.hour);
    bytes_mut_put_u8(&mut buf, msg.header.timestamp.day);
    bytes_mut_put_u8(&mut buf, msg.header.timestamp.month);
    bytes_mut_put_u8(&mut buf, msg.header.timestamp.year);
    bytes_mut_put_slice(&mut buf, vstd::array::array_as_slice(&msg.header.src_addr));
    bytes_mut_put_slice(&mut buf, vstd::array::array_as_slice(&msg.header.dst_addr));
    bytes_mut_put_u16(&mut buf, msg.header.data_unit_len);
    bytes_mut_put_u8(&mut buf, msg.header.control);

    bytes_mut_put_slice(&mut buf, data);

    bytes_mut_put_u8(&mut buf, msg.checksum);
    bytes_mut_put_u16(&mut buf, END_MARKER);

    reveal(spec_encode_message);
    assert(bytes_mut_view(buf) =~= spec_encode_message(msg@));
    bytes_mut_freeze(buf)
}

/// Reads the header at the front of `data`, after checking the start marker.
fn parse_header(data: &mut Bytes) -> (r: Result<ProtocolAHeader>)
    requires
        bytes_view(*old(data)).len() >= 2,
        be_u16_at(bytes_view(*old(data)), 0) == MAGIC_NUMBER ==> bytes_view(*old(data)).len() >= 27,
    ensures
        be_u16_at(bytes_view(*old(data)), 0) != MAGIC_NUMBER ==> (r matches Err(e) && e@
            == bad_magic_error(bytes_view(*old(data)))),
        be_u16_at(bytes_view(*old(data)), 0) == MAGIC_NUMBER ==> (r matches Ok(h) && h@
            == spec_header(bytes_view(*old(data)))),
        be_u16_at(bytes_view(*old(data)), 0) == MAGIC_NUMBER ==> bytes_view(*final(data))
            == bytes_view(*old(data)).skip(27),
{
    let ghost s = bytes_view(*data);
    let magic = bytes_get_u16(data);
    if magic != MAGIC_NUMBER {
        return Err(ProtocolError::InvalidMagic { expected: MAGIC_NUMBER, got: magic });
    }
    let service_id = bytes_get_u16(data);
    let main_version = bytes_get_u8(data);
    let user_version = bytes_get_u8(data);
    let second = bytes_get_u8(data);
    let minute = bytes_get_u8(data);
    let hour = bytes_get_u8(data);
    let day = bytes_get_u8(data);
    let month = bytes_get_u8(data);
    let year = bytes_get_u8(data);
    let mut src_addr = [0u8; 6];
    bytes_copy_to_slice(data, &mut src_addr);
    let mut dst_addr = [0u8; 6];
    bytes_copy_to_slice(data, &mut dst_addr);
    let data_unit_len = bytes_get_u16(data);
    let control = bytes_get_u8(data);

    let header = ProtocolAHeader {
        magic,
        service_id,
        version: ProtocolVersion { main_version, user_version },
        timestamp: Timestamp { second, minute, hour, day, month, year },
        src_addr,
        dst_addr,
        data_unit_len,
        control,
    };
    assert(header@.src_addr =~= s.subrange(12, 18));
    assert(header@.dst_addr =~= s.subrange(18, 24));
    assert(bytes_view(*data) =~= s.skip(27));
    Ok(header)
}

} // verus!
